//! Uploaded-file fields: generic over the target shape (a single file, an
//! optional one, a collection, or an optional collection), with an optional
//! secondary validation pass after structural conversion.

use vstd::prelude::*;

use crate::fields::{raw_is_empty, raw_of, AbstractFields};
use crate::forms::{FileMeta, Files, FormData};

verus! {

/// A typed handle to one uploaded file: the original filename and the path of
/// the materialized temporary copy, as taken from the raw descriptor. Pure
/// data; the temporary file's lifetime belongs to the parsing collaborator.
pub struct UploadedFile {
    pub filename: String,
    pub core_file_field: crate::forms::FileField,
    pub temp_path: String,
}

impl View for UploadedFile {
    type V = FileMeta;

    open spec fn view(&self) -> FileMeta {
        self.core_file_field@
    }
}

impl DeepView for UploadedFile {
    type V = FileMeta;

    open spec fn deep_view(&self) -> FileMeta {
        self@
    }
}

impl UploadedFile {
    /// The exposed filename and temporary path agree with the underlying
    /// descriptor.
    pub open spec fn wf(&self) -> bool {
        self.filename@ == self@.name && self.temp_path@ == self@.temp_path
    }

    /// Wraps a raw descriptor, exposing its filename and temporary path.
    pub fn from_core_file_field(core_file_field: crate::forms::FileField) -> (r: Self)
        ensures
            r@ == core_file_field@,
            r.wf(),
    {
        let temp_path = core_file_field.temp_path.clone();
        let filename = core_file_field.name.clone();

        Self { filename, core_file_field, temp_path }
    }

    /// The underlying raw descriptor.
    pub fn core_file_field(&self) -> (r: &crate::forms::FileField)
        ensures
            r@ == self@,
    {
        &self.core_file_field
    }
}

/// Conversion capability for file shapes: how a typed target shape drains the
/// ordered raw descriptors, and whether missing raw input is acceptable for it.
pub trait ToOptionT: Sized {
    /// Whether this shape accepts absent input.
    spec fn is_optional_spec() -> bool;

    /// Whether this shape consumes every descriptor (a collection) rather
    /// than exactly the first (a single file).
    spec fn takes_all_spec() -> bool;

    /// The descriptors a shape value stands for, if any: the unified ghost
    /// representation of every file shape.
    spec fn shape_view(v: Self) -> Option<Seq<FileMeta>>;

    /// Whether every handle a shape value holds is well-formed.
    spec fn shape_wf(v: Self) -> bool;

    /// Whether this shape accepts absent input.
    fn is_optional() -> (r: bool)
        ensures
            r == Self::is_optional_spec(),
    ;

    /// Drains the raw descriptors this shape needs, in arrival order: a
    /// collection shape consumes them all, a single shape consumes exactly the
    /// first. `None` means the descriptors cannot represent the shape (a
    /// required shape given none), and then nothing is consumed.
    fn from_vec(files: &mut Vec<crate::forms::FileField>) -> (r: Option<Self>)
        ensures
            old(files)@.len() > 0 ==> (r matches Some(t) && Self::shape_view(t) == Some(
                if Self::takes_all_spec() {
                    old(files).deep_view()
                } else {
                    seq![old(files)@[0]@]
                },
            )),
            old(files)@.len() == 0 && Self::is_optional_spec() ==> (r matches Some(t)
                && Self::shape_view(t) is None),
            old(files)@.len() == 0 && !Self::is_optional_spec() ==> r is None,
            r matches Some(t) ==> Self::shape_wf(t),
            old(files)@.len() > 0 && Self::takes_all_spec() ==> final(files)@.len() == 0,
            old(files)@.len() > 0 && !Self::takes_all_spec() ==> final(files)@ == old(
                files,
            )@.drop_first(),
            old(files)@.len() == 0 ==> final(files)@ == old(files)@,
    ;
}

impl ToOptionT for UploadedFile {
    open spec fn is_optional_spec() -> bool {
        false
    }

    open spec fn takes_all_spec() -> bool {
        false
    }

    open spec fn shape_view(v: Self) -> Option<Seq<FileMeta>> {
        Some(seq![v@])
    }

    open spec fn shape_wf(v: Self) -> bool {
        v.wf()
    }

    fn is_optional() -> (r: bool) {
        false
    }

    fn from_vec(files: &mut Vec<crate::forms::FileField>) -> (r: Option<Self>) {
        if files.len() > 0 {
            let ghost orig = files@;
            let file_field = files.remove(0);
            proof {
                assert(files@ =~= orig.drop_first());
            }
            Some(UploadedFile::from_core_file_field(file_field))
        } else {
            None
        }
    }
}

impl ToOptionT for Option<UploadedFile> {
    open spec fn is_optional_spec() -> bool {
        true
    }

    open spec fn takes_all_spec() -> bool {
        false
    }

    open spec fn shape_view(v: Self) -> Option<Seq<FileMeta>> {
        match v {
            Some(f) => Some(seq![f@]),
            None => None,
        }
    }

    open spec fn shape_wf(v: Self) -> bool {
        match v {
            Some(f) => f.wf(),
            None => true,
        }
    }

    fn is_optional() -> (r: bool) {
        true
    }

    fn from_vec(files: &mut Vec<crate::forms::FileField>) -> (r: Option<Self>) {
        if files.len() > 0 {
            let ghost orig = files@;
            let file_field = files.remove(0);
            proof {
                assert(files@ =~= orig.drop_first());
            }
            // The outer Some denotes a successful conversion.
            Some(Some(UploadedFile::from_core_file_field(file_field)))
        } else {
            // With no files present, an optional shape converts to its empty
            // representation.
            Some(None)
        }
    }
}

/// Drains every descriptor into handles, preserving arrival order.
fn drain_all(files: &mut Vec<crate::forms::FileField>) -> (r: Vec<UploadedFile>)
    ensures
        r.deep_view() == old(files).deep_view(),
        forall|i: int| 0 <= i < r@.len() ==> (#[trigger] r@[i]).wf(),
        final(files)@.len() == 0,
{
    let ghost orig = old(files).deep_view();
    let mut owned_files: Vec<UploadedFile> = Vec::new();
    proof {
        assert(owned_files.deep_view() + files.deep_view() =~= orig);
    }
    while files.len() > 0
        invariant
            owned_files.deep_view() + files.deep_view() == orig,
            forall|i: int| 0 <= i < owned_files@.len() ==> (#[trigger] owned_files@[i]).wf(),
        decreases files@.len(),
    {
        let ghost before_owned = owned_files.deep_view();
        let ghost before_files = files.deep_view();
        let file_field = files.remove(0);
        owned_files.push(UploadedFile::from_core_file_field(file_field));
        proof {
            assert(owned_files.deep_view() =~= before_owned.push(before_files[0]));
            assert(files.deep_view() =~= before_files.drop_first());
            assert(owned_files.deep_view() + files.deep_view() =~= orig);
        }
    }
    proof {
        assert(owned_files.deep_view() =~= orig);
    }
    owned_files
}

impl ToOptionT for Vec<UploadedFile> {
    open spec fn is_optional_spec() -> bool {
        false
    }

    open spec fn takes_all_spec() -> bool {
        true
    }

    open spec fn shape_view(v: Self) -> Option<Seq<FileMeta>> {
        Some(v.deep_view())
    }

    open spec fn shape_wf(v: Self) -> bool {
        forall|i: int| 0 <= i < v@.len() ==> (#[trigger] v@[i]).wf()
    }

    fn is_optional() -> (r: bool) {
        false
    }

    fn from_vec(files: &mut Vec<crate::forms::FileField>) -> (r: Option<Self>) {
        if files.len() > 0 {
            Some(drain_all(files))
        } else {
            // A required collection cannot be made from no files.
            None
        }
    }
}

impl ToOptionT for Option<Vec<UploadedFile>> {
    open spec fn is_optional_spec() -> bool {
        true
    }

    open spec fn takes_all_spec() -> bool {
        true
    }

    open spec fn shape_view(v: Self) -> Option<Seq<FileMeta>> {
        match v {
            Some(fs) => Some(fs.deep_view()),
            None => None,
        }
    }

    open spec fn shape_wf(v: Self) -> bool {
        match v {
            Some(fs) => forall|i: int| 0 <= i < fs@.len() ==> (#[trigger] fs@[i]).wf(),
            None => true,
        }
    }

    fn is_optional() -> (r: bool) {
        true
    }

    fn from_vec(files: &mut Vec<crate::forms::FileField>) -> (r: Option<Self>) {
        if files.len() > 0 {
            Some(Some(drain_all(files)))
        } else {
            // With no files present, an optional shape converts to its empty
            // representation.
            Some(None)
        }
    }
}

/// A secondary validation pass, run only once structural conversion to the
/// target shape has succeeded; it may reject with its own messages, or accept
/// and transform the value. What it does is a function of the shape's unified
/// ghost representation, stated by `check_spec`.
pub trait PostValidator<T: ToOptionT>: Sized {
    /// What `check` makes of a shape with the given representation: the
    /// representation of the accepted value, or the rejection messages.
    spec fn check_spec(&self, value: Option<Seq<FileMeta>>) -> Result<
        Option<Seq<FileMeta>>,
        Seq<Seq<char>>,
    >;

    /// Accepts (and possibly transforms) or rejects a converted value. The
    /// handles it returns are as well-formed as those it was given.
    fn check(&self, value: T) -> (r: Result<T, Vec<String>>)
        requires
            T::shape_wf(value),
        ensures
            match r {
                Ok(t) => self.check_spec(T::shape_view(value)) matches Ok(sv) && T::shape_view(t)
                    == sv && T::shape_wf(t),
                Err(es) => self.check_spec(T::shape_view(value)) matches Err(ms) && es.deep_view()
                    == ms,
            },
    ;
}

/// The secondary pass used when none is configured: accepts every value
/// unchanged.
pub struct AcceptAll;

impl<T: ToOptionT> PostValidator<T> for AcceptAll {
    open spec fn check_spec(&self, value: Option<Seq<FileMeta>>) -> Result<
        Option<Seq<FileMeta>>,
        Seq<Seq<char>>,
    > {
        Ok(value)
    }

    fn check(&self, value: T) -> (r: Result<T, Vec<String>>) {
        Ok(value)
    }
}

/// Default wording for a required file field given no upload.
pub open spec fn required_message() -> Seq<char> {
    "This field is required."@
}

fn make_required_message() -> (r: String)
    ensures
        r@ == required_message(),
{
    "This field is required.".to_owned()
}

/// What the structural conversion makes of the raw descriptors, before any
/// secondary validation: the unified representation of the converted shape,
/// or `None` when no conversion happens (no entry at all, or a required shape
/// given an empty entry).
pub open spec fn converted_view<T: ToOptionT>(raw: Option<Seq<FileMeta>>) -> Option<
    Option<Seq<FileMeta>>,
> {
    match raw {
        Some(fs) => if fs.len() > 0 {
            Some(
                Some(
                    if T::takes_all_spec() {
                        fs
                    } else {
                        seq![fs[0]]
                    },
                ),
            )
        } else if T::is_optional_spec() {
            Some(None)
        } else {
            None
        },
        None => None,
    }
}

/// Every message one file-field validation call reports, in order: first the
/// secondary validator's rejection, then the missing-field failure.
pub open spec fn file_error_messages<T: ToOptionT, P: PostValidator<T>>(
    post_validator: Option<P>,
    raw: Option<Seq<FileMeta>>,
) -> Seq<Seq<char>> {
    let check_part = match converted_view::<T>(raw) {
        Some(cv) => match post_validator {
            Some(p) => match p.check_spec(cv) {
                Ok(_) => Seq::empty(),
                Err(ms) => ms,
            },
            None => Seq::empty(),
        },
        None => Seq::empty(),
    };
    let miss_part = if !T::is_optional_spec() && raw_is_empty(raw) {
        seq![required_message()]
    } else {
        Seq::empty()
    };
    check_part + miss_part
}

/// What one file-field validation call does: either the messages it reports,
/// or the unified representation of the shape it stores.
pub open spec fn file_field_outcome<T: ToOptionT, P: PostValidator<T>>(
    post_validator: Option<P>,
    raw: Option<Seq<FileMeta>>,
) -> Result<Option<Seq<FileMeta>>, Seq<Seq<char>>> {
    let errors = file_error_messages::<T, P>(post_validator, raw);
    if errors.len() > 0 {
        Err(errors)
    } else if T::is_optional_spec() && raw_is_empty(raw) {
        // The empty representation, synthesized after the checks; it replaces
        // whatever a secondary validator made of a present-but-empty entry.
        Ok(None)
    } else {
        let cv = converted_view::<T>(raw)->0;
        match post_validator {
            Some(p) => p.check_spec(cv),
            None => Ok(cv),
        }
    }
}

/// A configurable uploaded-file field converting raw descriptors into the
/// typed shape `T`, with an optional secondary validation pass `P`.
/// Constructed once per request field, validated exactly once, and consumed
/// exactly once through `value`.
pub struct FileField<T, P = AcceptAll> {
    field_name: String,
    result: Option<T>,
    post_validator: Option<P>,
    validated: bool,
}

impl<T: ToOptionT, P: PostValidator<T>> FileField<T, P> {
    /// The field's identifier.
    pub closed spec fn field_name_spec(&self) -> Seq<char> {
        self.field_name@
    }

    /// The configured secondary validator, if any.
    pub closed spec fn post_validator_spec(&self) -> Option<P> {
        self.post_validator
    }

    /// The value stored by a successful validation call, if one completed.
    pub closed spec fn result_spec(&self) -> Option<T> {
        self.result
    }

    /// Whether a validation call has completed successfully.
    pub closed spec fn validated_spec(&self) -> bool {
        self.validated
    }

    /// A validated field always holds a result, made of well-formed handles.
    pub open spec fn wf(&self) -> bool {
        self.validated_spec() ==> (self.result_spec() matches Some(t) && T::shape_wf(t))
    }

    /// Whether both configurations are the same.
    pub open spec fn same_config(&self, other: &Self) -> bool {
        &&& other.field_name_spec() == self.field_name_spec()
        &&& other.post_validator_spec() == self.post_validator_spec()
    }

    /// A fresh, not yet validated field named `field_name`.
    pub fn new(field_name: &str) -> (r: Self)
        ensures
            r.field_name_spec() == field_name@,
            r.post_validator_spec() is None,
            r.result_spec() is None,
            !r.validated_spec(),
    {
        FileField {
            field_name: field_name.to_owned(),
            result: None,
            post_validator: None,
            validated: false,
        }
    }

    /// Configures `callback` to run on the converted value.
    pub fn post_validate<P2: PostValidator<T>>(self, callback: P2) -> (r: FileField<T, P2>)
        ensures
            r.post_validator_spec() == Some(callback),
            r.field_name_spec() == self.field_name_spec(),
            r.result_spec() == self.result_spec(),
            r.validated_spec() == self.validated_spec(),
    {
        FileField {
            field_name: self.field_name,
            result: self.result,
            post_validator: Some(callback),
            validated: self.validated,
        }
    }

    /// Whether a validation call has completed successfully; `value` may only
    /// be called once it has.
    pub fn is_validated(&self) -> (r: bool)
        ensures
            r == self.validated_spec(),
    {
        self.validated
    }

    /// Takes the validated value out of the field. Calling this before a
    /// successful validation call is a contract violation, not a recoverable
    /// error, so the precondition rules it out.
    pub fn value(self) -> (r: T)
        requires
            self.wf(),
            self.validated_spec(),
        ensures
            Some(r) == self.result_spec(),
            T::shape_wf(r),
    {
        match self.result {
            Some(t) => t,
            None => unreached(),
        }
    }
}

impl<T: ToOptionT, P: PostValidator<T>> AbstractFields for FileField<T, P> {
    open spec fn name_spec(&self) -> Seq<char> {
        self.field_name_spec()
    }

    open spec fn validate_req(&self, form_data: FormData, files: Files) -> bool {
        &&& self.wf()
        &&& form_data.wf()
        &&& files.wf()
        &&& match self.post_validator_spec() {
            // A secondary validator may reject, but a rejection carries at
            // least one message: an empty list never doubles as "no error".
            Some(p) => match converted_view::<T>(raw_of(files@, self.field_name_spec())) {
                Some(cv) => (p.check_spec(cv) matches Err(ms) ==> ms.len() > 0),
                None => true,
            },
            None => true,
        }
    }

    open spec fn validate_ens(
        &self,
        old_form: FormData,
        old_files: Files,
        new_self: Self,
        new_form: FormData,
        new_files: Files,
        r: Result<(), Seq<Seq<char>>>,
    ) -> bool {
        let raw = raw_of(old_files@, self.field_name_spec());
        let outcome = file_field_outcome::<T, P>(self.post_validator_spec(), raw);
        &&& new_files.wf()
        &&& new_files@ == old_files@.remove(self.field_name_spec())
        &&& new_form == old_form
        &&& new_self.wf()
        &&& self.same_config(&new_self)
        &&& match r {
            Ok(_) => outcome matches Ok(sv) && new_self.validated_spec() && (
            new_self.result_spec() matches Some(t) && T::shape_view(t) == sv && T::shape_wf(t)),
            Err(es) => outcome == Err::<Option<Seq<FileMeta>>, _>(es) && new_self.validated_spec()
                == self.validated_spec() && new_self.result_spec() == self.result_spec(),
        }
    }

    fn field_name(&self) -> (r: String) {
        self.field_name.clone()
    }

    fn validate(&mut self, form_data: &mut FormData, files: &mut Files) -> (r: Result<
        (),
        Vec<String>,
    >) {
        let ghost old_files_view = files@;

        // Takes this field's raw descriptors out of the file input.
        let removed = files.remove(&self.field_name);
        let ghost raw = raw_of(old_files_view, self.field_name@);

        let mut errors: Vec<String> = Vec::new();
        proof {
            assert(errors.deep_view() =~= Seq::<Seq<char>>::empty());
        }

        let is_optional = T::is_optional();
        let is_empty: bool;

        match removed {
            Some(mut raw_files) => {
                proof {
                    assert(raw matches Some(fs) && fs == raw_files.deep_view());
                }
                is_empty = raw_files.len() == 0;
                match T::from_vec(&mut raw_files) {
                    Some(converted) => {
                        match &self.post_validator {
                            Some(post_validator) => {
                                match post_validator.check(converted) {
                                    Ok(accepted) => {
                                        self.result = Some(accepted);
                                    },
                                    Err(mut custom_errors) => {
                                        let ghost custom = custom_errors.deep_view();
                                        errors.append(&mut custom_errors);
                                        proof {
                                            assert(errors.deep_view() =~= custom);
                                        }
                                    },
                                }
                            },
                            None => {
                                self.result = Some(converted);
                            },
                        }
                    },
                    None => {},
                }
            },
            None => {
                is_empty = true;
            },
        }

        // Handles the missing-upload case.
        if !is_optional && is_empty {
            let ghost before = errors.deep_view();
            errors.push(make_required_message());
            proof {
                assert(errors.deep_view() =~= before + seq![required_message()]);
            }
        } else {
            proof {
                assert(errors.deep_view() =~= errors.deep_view() + Seq::<Seq<char>>::empty());
            }
        }
        proof {
            assert(errors.deep_view() == file_error_messages::<T, P>(
                self.post_validator_spec(),
                raw,
            ));
        }

        if errors.len() > 0 {
            return Err(errors);
        }

        // An optional shape given no upload stores its empty representation.
        if is_optional && is_empty {
            let mut no_files: Vec<crate::forms::FileField> = Vec::new();
            proof {
                assert(no_files@.len() == 0);
            }
            match T::from_vec(&mut no_files) {
                Some(empty_shape) => {
                    self.result = Some(empty_shape);
                },
                None => {
                    // An optional shape always converts from no files.
                    proof {
                        assert(false);
                    }
                },
            }
        }

        self.validated = true;
        Ok(())
    }
}

/// For every required file shape with no matching upload, validation reports
/// exactly the missing-field message, whether or not a secondary validator is
/// configured, and stores nothing.
pub proof fn lemma_required_file_missing<T: ToOptionT, P: PostValidator<T>>(
    post_validator: Option<P>,
)
    requires
        !T::is_optional_spec(),
    ensures
        file_field_outcome::<T, P>(post_validator, None) == Err::<Option<Seq<FileMeta>>, _>(
            seq![required_message()],
        ),
{
    assert(file_error_messages::<T, P>(post_validator, None) =~= seq![required_message()]);
}

/// For every optional file shape with no matching upload, validation succeeds
/// and the stored value is the shape's empty representation.
pub proof fn lemma_optional_file_empty<T: ToOptionT, P: PostValidator<T>>(
    post_validator: Option<P>,
)
    requires
        T::is_optional_spec(),
    ensures
        file_field_outcome::<T, P>(post_validator, None) == Ok::<_, Seq<Seq<char>>>(
            None::<Seq<FileMeta>>,
        ),
{
    assert(file_error_messages::<T, P>(post_validator, None) =~= Seq::<Seq<char>>::empty());
}

/// A collection-shaped file field fed descriptors and checked by no secondary
/// validator stores all of them, in arrival order.
pub proof fn lemma_collection_preserves_order<T: ToOptionT, P: PostValidator<T>>(
    raw: Seq<FileMeta>,
)
    requires
        T::takes_all_spec(),
        raw.len() > 0,
    ensures
        file_field_outcome::<T, P>(None, Some(raw)) == Ok::<_, Seq<Seq<char>>>(Some(raw)),
{
    assert(file_error_messages::<T, P>(None, Some(raw)) =~= Seq::<Seq<char>>::empty());
}

/// A single-shaped file field fed descriptors and checked by no secondary
/// validator stores exactly the first descriptor.
pub proof fn lemma_single_takes_first<T: ToOptionT, P: PostValidator<T>>(raw: Seq<FileMeta>)
    requires
        !T::takes_all_spec(),
        raw.len() > 0,
    ensures
        file_field_outcome::<T, P>(None, Some(raw)) == Ok::<_, Seq<Seq<char>>>(
            Some(seq![raw[0]]),
        ),
{
    assert(file_error_messages::<T, P>(None, Some(raw)) =~= Seq::<Seq<char>>::empty());
}

/// When structural conversion succeeds but the secondary validator rejects,
/// the validator's messages are the outcome, and nothing is stored.
pub proof fn lemma_post_validator_rejection<T: ToOptionT, P: PostValidator<T>>(
    post_validator: P,
    raw: Seq<FileMeta>,
)
    requires
        raw.len() > 0,
        post_validator.check_spec(
            Some(
                if T::takes_all_spec() {
                    raw
                } else {
                    seq![raw[0]]
                },
            ),
        ) matches Err(ms) && ms.len() > 0,
    ensures
        file_field_outcome::<T, P>(Some(post_validator), Some(raw)) == Err::<
            Option<Seq<FileMeta>>,
            _,
        >(
            post_validator.check_spec(
                Some(
                    if T::takes_all_spec() {
                        raw
                    } else {
                        seq![raw[0]]
                    },
                ),
            )->Err_0,
        ),
{
    let rejection = post_validator.check_spec(
        Some(
            if T::takes_all_spec() {
                raw
            } else {
                seq![raw[0]]
            },
        ),
    )->Err_0;
    assert(file_error_messages::<T, P>(Some(post_validator), Some(raw)) =~= rejection);
}

} // verus!
