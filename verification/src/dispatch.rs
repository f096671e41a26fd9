//! Child variant dispatch: mapping the type tag a composite device reports
//! for each child onto a closed tagged union.
//!
//! The mapping is total. Recognized model tags go to their typed case; any
//! other tag goes to the explicit `Unrecognized` case carrying the raw tag,
//! so one unknown child never prevents reporting the rest and nothing is
//! silently dropped.

use vstd::prelude::*;
use vstd::string::StringExecFns;

use crate::device::ChildDescriptor;

verus! {

/// One enumerated child, as a closed tagged union over the known child
/// kinds. Exactly one case applies per child; the payload shape depends on
/// the case.
#[derive(Debug)]
pub enum ChildVariant {
    /// Addressable outlet of the power-strip family: switchable.
    Outlet { id: u64, nickname: String, power: Option<bool> },
    /// Wireless button.
    Button { id: u64, nickname: String },
    /// Open/closed contact sensor.
    ContactSensor { id: u64, nickname: String },
    /// Motion sensor.
    MotionSensor { id: u64, nickname: String },
    /// Water leak sensor.
    WaterLeakSensor { id: u64, nickname: String },
    /// Temperature and humidity sensor.
    TempHumiditySensor { id: u64, nickname: String },
    /// Radiator valve / thermostat-adjacent device.
    Thermostat { id: u64, nickname: String },
    /// Fallback for any tag not recognized above; carries the raw tag so no
    /// data is lost.
    Unrecognized { id: u64, nickname: String, reported_type: String },
}

/// Model tags of the addressable outlets hosted by a power strip.
pub open spec fn spec_is_outlet_tag(tag: Seq<char>) -> bool {
    tag == "P300"@ || tag == "P304"@ || tag == "P306"@
}

/// Every model tag with a typed case of its own.
pub open spec fn spec_is_known_tag(tag: Seq<char>) -> bool {
    ||| spec_is_outlet_tag(tag)
    ||| tag == "S200B"@
    ||| tag == "T100"@
    ||| tag == "T110"@
    ||| tag == "T300"@
    ||| tag == "T310"@
    ||| tag == "T315"@
    ||| tag == "KE100"@
}

/// Total mapping from one child descriptor to its variant: the reported type
/// tag picks the case, and an unknown tag picks the fallback carrying that
/// tag unchanged.
pub open spec fn spec_classify(d: ChildDescriptor) -> ChildVariant {
    if spec_is_outlet_tag(d.reported_type@) {
        ChildVariant::Outlet { id: d.id, nickname: d.nickname, power: d.power }
    } else if d.reported_type@ == "S200B"@ {
        ChildVariant::Button { id: d.id, nickname: d.nickname }
    } else if d.reported_type@ == "T100"@ {
        ChildVariant::MotionSensor { id: d.id, nickname: d.nickname }
    } else if d.reported_type@ == "T110"@ {
        ChildVariant::ContactSensor { id: d.id, nickname: d.nickname }
    } else if d.reported_type@ == "T300"@ {
        ChildVariant::WaterLeakSensor { id: d.id, nickname: d.nickname }
    } else if d.reported_type@ == "T310"@ || d.reported_type@ == "T315"@ {
        ChildVariant::TempHumiditySensor { id: d.id, nickname: d.nickname }
    } else if d.reported_type@ == "KE100"@ {
        ChildVariant::Thermostat { id: d.id, nickname: d.nickname }
    } else {
        ChildVariant::Unrecognized {
            id: d.id,
            nickname: d.nickname,
            reported_type: d.reported_type,
        }
    }
}

/// Only an outlet accepts power commands; every other case is read-only for
/// this core.
pub open spec fn spec_variant_is_outlet(v: ChildVariant) -> bool {
    v matches ChildVariant::Outlet { .. }
}

/// Exact, case-sensitive comparison of a reported tag with one known tag.
fn tag_is(tag: &String, expected: &str) -> (r: bool)
    ensures
        r == (tag@ == expected@),
{
    let e: String = String::from_str(expected);
    *tag == e
}

/// Map one descriptor to its variant, as `spec_classify` says.
pub fn classify(d: &ChildDescriptor) -> (v: ChildVariant)
    ensures
        v == spec_classify(*d),
{
    if tag_is(&d.reported_type, "P300") || tag_is(&d.reported_type, "P304") || tag_is(
        &d.reported_type,
        "P306",
    ) {
        ChildVariant::Outlet { id: d.id, nickname: d.nickname.clone(), power: d.power }
    } else if tag_is(&d.reported_type, "S200B") {
        ChildVariant::Button { id: d.id, nickname: d.nickname.clone() }
    } else if tag_is(&d.reported_type, "T100") {
        ChildVariant::MotionSensor { id: d.id, nickname: d.nickname.clone() }
    } else if tag_is(&d.reported_type, "T110") {
        ChildVariant::ContactSensor { id: d.id, nickname: d.nickname.clone() }
    } else if tag_is(&d.reported_type, "T300") {
        ChildVariant::WaterLeakSensor { id: d.id, nickname: d.nickname.clone() }
    } else if tag_is(&d.reported_type, "T310") || tag_is(&d.reported_type, "T315") {
        ChildVariant::TempHumiditySensor { id: d.id, nickname: d.nickname.clone() }
    } else if tag_is(&d.reported_type, "KE100") {
        ChildVariant::Thermostat { id: d.id, nickname: d.nickname.clone() }
    } else {
        ChildVariant::Unrecognized {
            id: d.id,
            nickname: d.nickname.clone(),
            reported_type: d.reported_type.clone(),
        }
    }
}

/// Whether this variant accepts power commands.
pub fn variant_is_outlet(v: &ChildVariant) -> (r: bool)
    ensures
        r == spec_variant_is_outlet(*v),
{
    match v {
        ChildVariant::Outlet { .. } => true,
        _ => false,
    }
}

/// Map a whole enumerated snapshot, one variant per descriptor, in the
/// device-reported order: as many variants out as descriptors in, each the
/// classification of the descriptor at its position — no silent drops.
pub fn map_children(children: &Vec<ChildDescriptor>) -> (r: Vec<ChildVariant>)
    ensures
        r@.len() == children@.len(),
        forall|i: int| 0 <= i < children@.len() ==> r@[i] == spec_classify(children@[i]),
{
    let mut r: Vec<ChildVariant> = Vec::new();
    let mut i: usize = 0;
    while i < children.len()
        invariant
            0 <= i <= children@.len(),
            r@.len() == i,
            forall|j: int| 0 <= j < i ==> r@[j] == spec_classify(children@[j]),
        decreases children@.len() - i,
    {
        let v = classify(&children[i]);
        r.push(v);
        i = i + 1;
    }
    r
}

/// An unrecognized reported type is never dropped: it maps to the fallback
/// case, and the raw tag, identifier and nickname come through unchanged.
pub proof fn lemma_unrecognized_keeps_tag(d: ChildDescriptor)
    requires
        !spec_is_known_tag(d.reported_type@),
    ensures
        spec_classify(d) == (ChildVariant::Unrecognized {
            id: d.id,
            nickname: d.nickname,
            reported_type: d.reported_type,
        }),
{
}

} // verus!
