//! How modifiers and modifier policies are written in messages: an atom, or a number.

use vstd::prelude::*;

use crate::dmabuf::AV_DRM_MAX_ENTRIES;
use crate::format::ModifierPolicy;
use crate::modifier::Modifier;

verus! {

/// An atom or a number.
#[derive(Debug, PartialEq, Eq)]
pub enum SchemaValue {
    Atom(String),
    Number(u64),
}

/// The contents of a value.
pub ghost enum SchemaView {
    Atom(Seq<char>),
    Number(u64),
}

impl View for SchemaValue {
    type V = SchemaView;

    open spec fn view(&self) -> SchemaView {
        match *self {
            SchemaValue::Atom(name) => SchemaView::Atom(name@),
            SchemaValue::Number(number) => SchemaView::Number(number),
        }
    }
}

/// The modifier that a value stands for, where it stands for one.
pub open spec fn modifier_of(value: SchemaView) -> Option<Modifier> {
    match value {
        SchemaView::Atom(name) => if name == "implicit"@ {
            Some(Modifier::Implicit)
        } else {
            None
        },
        SchemaView::Number(number) => Some(Modifier::Explicit(number)),
    }
}

/// The value of a modifier.
pub open spec fn value_of_modifier(modifier: Modifier) -> SchemaView {
    match modifier {
        Modifier::Implicit => SchemaView::Atom("implicit"@),
        Modifier::Explicit(number) => SchemaView::Number(number),
    }
}

/// The policy that a value stands for, where it stands for one.
pub open spec fn policy_of(value: SchemaView) -> Option<ModifierPolicy> {
    match value {
        SchemaView::Atom(name) => if name == "per_buffer"@ {
            Some(ModifierPolicy::PerBuffer)
        } else if name == "implicit"@ {
            Some(ModifierPolicy::Implicit)
        } else {
            None
        },
        SchemaView::Number(number) => Some(ModifierPolicy::Explicit(number)),
    }
}

/// The value of a policy.
pub open spec fn value_of_policy(policy: ModifierPolicy) -> SchemaView {
    match policy {
        ModifierPolicy::PerBuffer => SchemaView::Atom("per_buffer"@),
        ModifierPolicy::Implicit => SchemaView::Atom("implicit"@),
        ModifierPolicy::Explicit(number) => SchemaView::Number(number),
    }
}

/// Reads a modifier.
pub fn decode_modifier(value: &SchemaValue) -> (modifier: Option<Modifier>)
    ensures
        modifier == modifier_of(value@),
{
    match value {
        SchemaValue::Atom(name) => if *name == "implicit".to_owned() {
            Some(Modifier::Implicit)
        } else {
            None
        },
        SchemaValue::Number(number) => Some(Modifier::Explicit(*number)),
    }
}

/// Writes a modifier.
pub fn encode_modifier(modifier: Modifier) -> (value: SchemaValue)
    ensures
        value@ == value_of_modifier(modifier),
{
    match modifier {
        Modifier::Implicit => SchemaValue::Atom("implicit".to_owned()),
        Modifier::Explicit(number) => SchemaValue::Number(number),
    }
}

/// Reads a modifier policy.
pub fn decode_modifier_policy(value: &SchemaValue) -> (policy: Option<ModifierPolicy>)
    ensures
        policy == policy_of(value@),
{
    match value {
        SchemaValue::Atom(name) => if *name == "per_buffer".to_owned() {
            Some(ModifierPolicy::PerBuffer)
        } else if *name == "implicit".to_owned() {
            Some(ModifierPolicy::Implicit)
        } else {
            None
        },
        SchemaValue::Number(number) => Some(ModifierPolicy::Explicit(*number)),
    }
}

/// Writes a modifier policy.
pub fn encode_modifier_policy(policy: ModifierPolicy) -> (value: SchemaValue)
    ensures
        value@ == value_of_policy(policy),
{
    match policy {
        ModifierPolicy::PerBuffer => SchemaValue::Atom("per_buffer".to_owned()),
        ModifierPolicy::Implicit => SchemaValue::Atom("implicit".to_owned()),
        ModifierPolicy::Explicit(number) => SchemaValue::Number(number),
    }
}

/// Reading gives back what was written.
pub proof fn reading_gives_back_what_was_written(modifier: Modifier, policy: ModifierPolicy)
    ensures
        modifier_of(value_of_modifier(modifier)) == Some(modifier),
        policy_of(value_of_policy(policy)) == Some(policy),
{
    reveal_strlit("implicit");
    reveal_strlit("per_buffer");
    assert("implicit"@.len() != "per_buffer"@.len());
}

/// Tests that a list of a descriptor with so many entries can take one more. A longer list is
/// refused before the rest of it is read.
pub fn admits_another_entry(entries: usize) -> (admitted: bool)
    ensures
        admitted == (entries < AV_DRM_MAX_ENTRIES),
{
    entries < AV_DRM_MAX_ENTRIES
}

} // verus!
