//! The typed fields: text input fields and uploaded-file fields, together with
//! the uniform surface a form driver uses to run them.

pub mod file_field;
pub mod input_field;

use vstd::prelude::*;

use crate::forms::{Files, FormData};

verus! {

/// The raw entries stored under `name`, or `None` when the map has no entry.
pub open spec fn raw_of<E>(m: Map<Seq<char>, Seq<E>>, name: Seq<char>) -> Option<Seq<E>> {
    if m.contains_key(name) {
        Some(m[name])
    } else {
        None
    }
}

/// Whether no raw entry is present: the entry is absent or holds nothing.
pub open spec fn raw_is_empty<E>(raw: Option<Seq<E>>) -> bool {
    match raw {
        Some(vs) => vs.len() == 0,
        None => true,
    }
}

/// The uniform capability every field kind implements, so that a form driver
/// can treat differently-typed fields identically. Each implementor states
/// what its validation call requires and guarantees through the two spec
/// hooks, which callers that know the concrete field type can unfold.
pub trait AbstractFields: Sized {
    /// The field's identifier.
    spec fn name_spec(&self) -> Seq<char>;

    /// What this field asks of its configuration and the raw maps before a
    /// validation call.
    spec fn validate_req(&self, form_data: FormData, files: Files) -> bool;

    /// How one validation call relates its outcome and the new state of the
    /// field and of the raw maps to the old state.
    spec fn validate_ens(
        &self,
        old_form: FormData,
        old_files: Files,
        new_self: Self,
        new_form: FormData,
        new_files: Files,
        r: Result<(), Seq<Seq<char>>>,
    ) -> bool;

    /// Returns the field's identifier.
    fn field_name(&self) -> (r: String)
        ensures
            r@ == self.name_spec(),
    ;

    /// Removes this field's entry from the relevant raw map, converts and
    /// checks the entry, and either stores the typed value or returns the
    /// error messages. Meant to be called exactly once per field instance:
    /// the raw entry is consumed, so a later call sees absent input.
    fn validate(&mut self, form_data: &mut FormData, files: &mut Files) -> (r: Result<
        (),
        Vec<String>,
    >)
        requires
            old(self).validate_req(*old(form_data), *old(files)),
        ensures
            old(self).validate_ens(
                *old(form_data),
                *old(files),
                *final(self),
                *final(form_data),
                *final(files),
                match r {
                    Ok(u) => Ok(u),
                    Err(es) => Err(es.deep_view()),
                },
            ),
    ;
}

} // verus!
