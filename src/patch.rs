use crate::error::RepoError;
use vstd::prelude::*;

verus! {

/// Instruction for one field of an update request.
///
/// On the wire a patch is an optional nullable value: an absent field is `Ignore`, an
/// explicit null is `Clear`, and any other value `v` is `SetTo(v)`.
#[derive(Clone, Debug)]
pub enum Patch<T> {
    /// Leave the field unchanged.
    Ignore,
    /// Null the field; only an optional field can be cleared.
    Clear,
    /// Assign the value to the field.
    SetTo(T),
}

impl<T> Default for Patch<T> {
    /// A field left out of an update payload is ignored.
    fn default() -> (r: Patch<T>)
        ensures
            r is Ignore,
    {
        Patch::Ignore
    }
}

/// Wire form of a patch: `None` when absent, `Some(None)` when null, `Some(Some(v))`.
pub open spec fn wire_of<T>(p: Patch<T>) -> Option<Option<T>> {
    match p {
        Patch::Ignore => None,
        Patch::Clear => Some(None),
        Patch::SetTo(v) => Some(Some(v)),
    }
}

/// Patch that a wire value stands for.
pub open spec fn patch_of_wire<T>(w: Option<Option<T>>) -> Patch<T> {
    match w {
        None => Patch::Ignore,
        Some(None) => Patch::Clear,
        Some(Some(v)) => Patch::SetTo(v),
    }
}

impl<T> Patch<T> {
    /// Encodes the patch in its wire form.
    pub fn into_wire(self) -> (r: Option<Option<T>>)
        ensures
            r == wire_of(self),
    {
        match self {
            Patch::Ignore => None,
            Patch::Clear => Some(None),
            Patch::SetTo(v) => Some(Some(v)),
        }
    }

    /// Decodes a patch from its wire form.
    pub fn from_wire(w: Option<Option<T>>) -> (r: Patch<T>)
        ensures
            r == patch_of_wire(w),
    {
        match w {
            None => Patch::Ignore,
            Some(None) => Patch::Clear,
            Some(Some(v)) => Patch::SetTo(v),
        }
    }

    /// Whether the patch leaves its field unchanged.
    pub fn is_ignore(&self) -> (r: bool)
        ensures
            r == (*self is Ignore),
    {
        match self {
            Patch::Ignore => true,
            _ => false,
        }
    }
}

/// What a patch of a field that cannot be null asks for: `Some(v)` to assign `v`,
/// `None` to leave it; `Clear` is refused there.
pub open spec fn required_change<T>(p: Patch<T>) -> Result<Option<T>, ()> {
    match p {
        Patch::Ignore => Ok(None),
        Patch::Clear => Err(()),
        Patch::SetTo(v) => Ok(Some(v)),
    }
}

/// Reads the patch of a field that cannot be null; `Clear` is an `InvalidInput`.
pub fn required_field<T>(p: Patch<T>, field: &str) -> (r: Result<Option<T>, RepoError>)
    ensures
        match r {
            Ok(change) => required_change(p) == Ok::<Option<T>, ()>(change),
            Err(e) => required_change(p) is Err && e is InvalidInput,
        },
{
    match p {
        Patch::Ignore => Ok(None),
        Patch::Clear => Err(RepoError::InvalidInput(field.to_owned().concat(" cannot be cleared"))),
        Patch::SetTo(v) => Ok(Some(v)),
    }
}

/// Decoding the wire form of a patch gives back the patch.
pub proof fn lemma_patch_wire_round_trip<T>(p: Patch<T>)
    ensures
        patch_of_wire(wire_of(p)) == p,
{
}

/// Encoding the patch that a wire value stands for gives back the wire value.
pub proof fn lemma_wire_patch_round_trip<T>(w: Option<Option<T>>)
    ensures
        wire_of(patch_of_wire(w)) == w,
{
}

} // verus!
