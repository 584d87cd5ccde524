//! A script property that may be unset: what its editor's result does to the field.
use vstd::prelude::*;

verus! {

/// What the editor of a set property reported: whether the field stays set, and whether its
/// value was edited.
#[derive(Clone, Copy, Debug, PartialEq, Eq, Structural)]
pub struct PropertyFieldResult {
    pub field_enabled: bool,
    pub edited: bool,
}

/// The field after the editor's result: set to `field_default` when it was unset and the
/// editor enables it, unset when it was set and the editor disables it, else unchanged.
pub open spec fn field_after<T>(field: Option<T>, field_default: T, result: PropertyFieldResult) -> Option<T> {
    if result.field_enabled {
        match field {
            Some(v) => Some(v),
            None => Some(field_default),
        }
    } else {
        None
    }
}

/// Applies an editor's result to an optional property field, and says whether the field
/// changed: it was edited, or it went from unset to set or back.
pub fn apply_field_result<T>(field: &mut Option<T>, field_default: T, result: PropertyFieldResult) -> (r: bool)
    ensures
        *final(field) == field_after(*old(field), field_default, result),
        r == (result.edited || (old(field).is_some() != result.field_enabled)),
{
    let edited_some_none = if result.field_enabled {
        if field.is_none() {
            *field = Some(field_default);
            true
        } else {
            false
        }
    } else if field.is_some() {
        *field = None;
        true
    } else {
        false
    };

    result.edited || edited_some_none
}

/// The result reported for a field that is unset: the enable button's click decides
/// whether it becomes set, and nothing was edited.
pub fn unset_field_result(enable_clicked: bool) -> (r: PropertyFieldResult)
    ensures
        r == (PropertyFieldResult { field_enabled: enable_clicked, edited: false }),
{
    PropertyFieldResult { field_enabled: enable_clicked, edited: false }
}

/// Disabling then enabling a field sets it to the default; enabling a set field, or
/// disabling an unset one, changes nothing.
pub proof fn lemma_field_toggle<T>(field: Option<T>, field_default: T, value: T)
    ensures
        field_after(field_after(field, field_default, PropertyFieldResult { field_enabled: false, edited: false }),
            field_default, PropertyFieldResult { field_enabled: true, edited: false }) == Some(field_default),
        field_after(Some(value), field_default, PropertyFieldResult { field_enabled: true, edited: false }) == Some(value),
        field_after(None::<T>, field_default, PropertyFieldResult { field_enabled: false, edited: false }) == None::<T>,
{
}

} // verus!
