//! Reading a material description out of a parsed document.
//!
//! A description document is an object with a `vertex_stage` string, a
//! `fragment_stage` string (the paths of the two compiled shader stages),
//! and a `uniforms` array whose entries each carry a `name` string and a
//! `type` string, `camera` or `texture`.  Other members are ignored.
//! Missing or badly typed fields are load-time errors reported to the
//! caller, never a crash.

use vstd::prelude::*;

use crate::json::json_views;
use crate::json::obj_lookup;
use crate::json::parse_json;
use crate::json::spec_obj_lookup;
use crate::json::spec_parse_document;
use crate::json::JsonValue;
use crate::json::SpecJson;
use crate::material::MaterialDescription;
use crate::material::SlotDescriptor;
use crate::uniform::SlotKind;

verus! {

/// Why a description document was rejected.
#[derive(Clone, Copy, PartialEq, Eq, Structural, Debug)]
pub enum DescriptionError {
    /// The text is not a document of the format.
    MalformedDocument,
    /// The document lacks a required field, or a field has the wrong
    /// shape: no `vertex_stage` or `fragment_stage` string, no `uniforms`
    /// array, or a slot entry without its `name` string or a `type` of
    /// `camera` or `texture`.
    InvalidDescription,
}

impl DescriptionError {
    /// A short diagnostic text for the error.
    pub fn message(&self) -> (r: &'static str)
        ensures
            r@ == self.spec_message(),
    {
        match self {
            DescriptionError::MalformedDocument => "the material description is not valid JSON",
            DescriptionError::InvalidDescription => "the material description lacks a required field",
        }
    }

    pub open spec fn spec_message(&self) -> Seq<char> {
        match self {
            DescriptionError::MalformedDocument => "the material description is not valid JSON"@,
            DescriptionError::InvalidDescription => "the material description lacks a required field"@,
        }
    }
}

/// What one entry of the `uniforms` array declares: its `name`, and the
/// kind its `type` tag names.
pub open spec fn spec_slot_of(v: SpecJson) -> Option<(Seq<char>, SlotKind)> {
    match v {
        SpecJson::Obj(ms) => match (spec_obj_lookup(ms, "name"@), spec_obj_lookup(ms, "type"@)) {
            (Some(SpecJson::Str(name)), Some(SpecJson::Str(tag))) => if tag == "camera"@ {
                Some((name, SlotKind::Camera))
            } else if tag == "texture"@ {
                Some((name, SlotKind::Texture))
            } else {
                None
            },
            _ => None,
        },
        _ => None,
    }
}

/// What the `uniforms` array declares, in order; `None` as soon as one
/// entry is bad.
pub open spec fn spec_slots_of(items: Seq<SpecJson>) -> Option<Seq<(Seq<char>, SlotKind)>>
    decreases items.len(),
{
    if items.len() == 0 {
        Some(Seq::<(Seq<char>, SlotKind)>::empty())
    } else {
        match (spec_slots_of(items.drop_last()), spec_slot_of(items.last())) {
            (Some(rest), Some(slot)) => Some(rest.push(slot)),
            _ => None,
        }
    }
}

/// What a description document declares: the two stage paths and the
/// ordered slots; `None` where a required field is missing or badly
/// typed.
pub open spec fn spec_description_of(doc: SpecJson) -> Option<
    (Seq<char>, Seq<char>, Seq<(Seq<char>, SlotKind)>),
> {
    match doc {
        SpecJson::Obj(ms) => match (
            spec_obj_lookup(ms, "vertex_stage"@),
            spec_obj_lookup(ms, "fragment_stage"@),
            spec_obj_lookup(ms, "uniforms"@),
        ) {
            (
                Some(SpecJson::Str(vertex)),
                Some(SpecJson::Str(fragment)),
                Some(SpecJson::Arr(uniforms)),
            ) => match spec_slots_of(uniforms) {
                Some(slots) => Some((vertex, fragment, slots)),
                None => None,
            },
            _ => None,
        },
        _ => None,
    }
}

/// The declarations a slot list makes, name and kind per slot.
pub open spec fn spec_slot_decls(slots: Seq<SlotDescriptor>) -> Seq<(Seq<char>, SlotKind)> {
    slots.map_values(|sd: SlotDescriptor| (sd.name@, sd.kind))
}

/// Read one slot entry.
fn slot_of(v: &JsonValue) -> (r: Option<SlotDescriptor>)
    ensures
        match r {
            Some(sd) => spec_slot_of(crate::json::json_view(*v)) == Some((sd.name@, sd.kind)),
            None => spec_slot_of(crate::json::json_view(*v)) is None,
        },
{
    let members = match v.as_object() {
        Some(members) => members,
        None => {
            return None;
        },
    };
    let name = match obj_lookup(members, "name") {
        Some(field) => match field.as_str() {
            Some(name) => name,
            None => {
                return None;
            },
        },
        None => {
            return None;
        },
    };
    let tag = match obj_lookup(members, "type") {
        Some(field) => match field.as_str() {
            Some(tag) => tag,
            None => {
                return None;
            },
        },
        None => {
            return None;
        },
    };
    if *tag == "camera".to_owned() {
        Some(SlotDescriptor { name: name.clone(), kind: SlotKind::Camera })
    } else if *tag == "texture".to_owned() {
        Some(SlotDescriptor { name: name.clone(), kind: SlotKind::Texture })
    } else {
        None
    }
}

/// A bad prefix of the slot list spoils the whole list.
proof fn lemma_slots_of_prefix_none(items: Seq<SpecJson>, i: int)
    requires
        0 <= i <= items.len(),
        spec_slots_of(items.take(i)) is None,
    ensures
        spec_slots_of(items) is None,
    decreases items.len() - i,
{
    if i == items.len() {
        assert(items.take(i) =~= items);
    } else {
        assert(items.take(i + 1).drop_last() =~= items.take(i));
        lemma_slots_of_prefix_none(items, i + 1);
    }
}

/// Read the whole slot list.
fn slots_of(items: &Vec<JsonValue>) -> (r: Option<Vec<SlotDescriptor>>)
    ensures
        match r {
            Some(slots) => spec_slots_of(json_views(items@)) == Some(spec_slot_decls(slots@)),
            None => spec_slots_of(json_views(items@)) is None,
        },
{
    let views = Ghost(json_views(items@));
    let mut slots: Vec<SlotDescriptor> = Vec::new();
    let n = items.len();
    let mut i: usize = 0;
    proof {
        assert(views@.take(0) =~= Seq::<SpecJson>::empty());
        assert(spec_slot_decls(slots@) =~= Seq::<(Seq<char>, SlotKind)>::empty());
    }
    while i < n
        invariant
            i <= n,
            n == items@.len(),
            views@ == json_views(items@),
            spec_slots_of(views@.take(i as int)) == Some(spec_slot_decls(slots@)),
        decreases n - i,
    {
        match slot_of(&items[i]) {
            Some(sd) => {
                let ghost decls = spec_slot_decls(slots@);
                slots.push(sd);
                proof {
                    assert(views@.take(i + 1 as int).drop_last() =~= views@.take(i as int));
                    assert(views@.take(i + 1 as int).last() == views@[i as int]);
                    assert(spec_slot_decls(slots@) =~= decls.push((sd.name@, sd.kind)));
                }
            },
            None => {
                proof {
                    assert(views@.take(i + 1 as int).last() == views@[i as int]);
                    assert(spec_slots_of(views@.take(i + 1 as int)) is None);
                    lemma_slots_of_prefix_none(views@, i + 1);
                }
                return None;
            },
        }
        i = i + 1;
    }
    proof {
        assert(views@.take(n as int) =~= views@);
    }
    Some(slots)
}

/// Parse a material description document.
///
/// Text outside the document format is `MalformedDocument`; a document
/// missing a required field or declaring a slot badly is
/// `InvalidDescription`; everything else yields exactly the stage paths
/// and the ordered slots the document declares.
pub fn parse_material_description(source: &str) -> (r: Result<
    MaterialDescription,
    DescriptionError,
>)
    ensures
        match spec_parse_document(source@) {
            Some(doc) => match spec_description_of(doc) {
                Some((vertex, fragment, slots)) => {
                    &&& r matches Ok(d)
                    &&& d.vertex_stage@ == vertex
                    &&& d.fragment_stage@ == fragment
                    &&& spec_slot_decls(d.slots@) == slots
                },
                None => r == Result::<MaterialDescription, DescriptionError>::Err(
                    DescriptionError::InvalidDescription,
                ),
            },
            None => r == Result::<MaterialDescription, DescriptionError>::Err(
                DescriptionError::MalformedDocument,
            ),
        },
{
    let doc = match parse_json(source) {
        Some(doc) => doc,
        None => {
            return Err(DescriptionError::MalformedDocument);
        },
    };
    let members = match doc.as_object() {
        Some(members) => members,
        None => {
            return Err(DescriptionError::InvalidDescription);
        },
    };
    let vertex_stage = match obj_lookup(members, "vertex_stage") {
        Some(field) => match field.as_str() {
            Some(path) => path.clone(),
            None => {
                return Err(DescriptionError::InvalidDescription);
            },
        },
        None => {
            return Err(DescriptionError::InvalidDescription);
        },
    };
    let fragment_stage = match obj_lookup(members, "fragment_stage") {
        Some(field) => match field.as_str() {
            Some(path) => path.clone(),
            None => {
                return Err(DescriptionError::InvalidDescription);
            },
        },
        None => {
            return Err(DescriptionError::InvalidDescription);
        },
    };
    let uniforms = match obj_lookup(members, "uniforms") {
        Some(field) => match field.as_array() {
            Some(items) => items,
            None => {
                return Err(DescriptionError::InvalidDescription);
            },
        },
        None => {
            return Err(DescriptionError::InvalidDescription);
        },
    };
    let slots = match slots_of(uniforms) {
        Some(slots) => slots,
        None => {
            return Err(DescriptionError::InvalidDescription);
        },
    };
    Ok(MaterialDescription { vertex_stage, fragment_stage, slots })
}

} // verus!
