//! Text input fields: generic over the target shape (a required single value
//! or an optional one), with a maximum-length constraint, an optional default
//! value and an overridable error wording.

use vstd::prelude::*;

use crate::fields::{raw_is_empty, raw_of, AbstractFields};
use crate::forms::{Files, FormData};

verus! {

/// A structured description of one text-field failure, handed to a custom
/// error-message handler together with the default wording.
pub enum InputFieldError {
    /// The field name.
    MissingField(String),
    /// (field_name, value, minimum_length)
    MinimumLengthRequired(String, String, usize),
    /// (field_name, value, maximum_length)
    MaximumLengthExceed(String, String, usize),
}

/// The ghost shape of an `InputFieldError`.
pub enum InputFieldErrorView {
    MissingField(Seq<char>),
    MinimumLengthRequired(Seq<char>, Seq<char>, usize),
    MaximumLengthExceed(Seq<char>, Seq<char>, usize),
}

impl View for InputFieldError {
    type V = InputFieldErrorView;

    open spec fn view(&self) -> InputFieldErrorView {
        match self {
            InputFieldError::MissingField(name) => InputFieldErrorView::MissingField(name@),
            InputFieldError::MinimumLengthRequired(name, value, min) =>
                InputFieldErrorView::MinimumLengthRequired(name@, value@, *min),
            InputFieldError::MaximumLengthExceed(name, value, max) =>
                InputFieldErrorView::MaximumLengthExceed(name@, value@, *max),
        }
    }
}

/// A custom error-message handler: it receives a structured failure and the
/// default message list, and returns the final messages shown to the user.
/// The final messages are a function of the handler's own state, the failure
/// and the defaults, stated by `handle_spec`.
pub trait ErrorHandler: Sized {
    /// What `handle` returns for a given failure and default wording.
    spec fn handle_spec(&self, error: InputFieldErrorView, defaults: Seq<Seq<char>>) -> Seq<
        Seq<char>,
    >;

    /// Turns a structured failure and the default messages into the final ones.
    fn handle(&self, error: InputFieldError, defaults: Vec<String>) -> (r: Vec<String>)
        ensures
            r.deep_view() == self.handle_spec(error@, defaults.deep_view()),
    ;
}

/// The wording used when no custom handler is configured: the default
/// messages, unchanged.
pub struct DefaultWording;

impl ErrorHandler for DefaultWording {
    open spec fn handle_spec(&self, error: InputFieldErrorView, defaults: Seq<Seq<char>>) -> Seq<
        Seq<char>,
    > {
        defaults
    }

    fn handle(&self, error: InputFieldError, defaults: Vec<String>) -> (r: Vec<String>) {
        defaults
    }
}

/// The messages an optional handler produces; absent a handler, the defaults.
pub open spec fn applied_messages<H: ErrorHandler>(
    handler: Option<H>,
    error: InputFieldErrorView,
    defaults: Seq<Seq<char>>,
) -> Seq<Seq<char>> {
    match handler {
        Some(h) => h.handle_spec(error, defaults),
        None => defaults,
    }
}

/// The decimal digits of `n`, most significant first.
pub open spec fn decimal_rep(n: nat) -> Seq<char>
    decreases n,
{
    if n < 10 {
        seq![digit_char(n)]
    } else {
        decimal_rep(n / 10).push(digit_char(n % 10))
    }
}

/// The character for one decimal digit.
pub open spec fn digit_char(d: nat) -> char {
    if d == 0 {
        '0'
    } else if d == 1 {
        '1'
    } else if d == 2 {
        '2'
    } else if d == 3 {
        '3'
    } else if d == 4 {
        '4'
    } else if d == 5 {
        '5'
    } else if d == 6 {
        '6'
    } else if d == 7 {
        '7'
    } else if d == 8 {
        '8'
    } else {
        '9'
    }
}

/// The one-character string for a decimal digit.
fn digit_str(d: usize) -> (r: &'static str)
    requires
        d < 10,
    ensures
        r@ =~= seq![digit_char(d as nat)],
{
    proof {
        reveal_strlit("0");
        reveal_strlit("1");
        reveal_strlit("2");
        reveal_strlit("3");
        reveal_strlit("4");
        reveal_strlit("5");
        reveal_strlit("6");
        reveal_strlit("7");
        reveal_strlit("8");
        reveal_strlit("9");
    }
    match d {
        0 => "0",
        1 => "1",
        2 => "2",
        3 => "3",
        4 => "4",
        5 => "5",
        6 => "6",
        7 => "7",
        8 => "8",
        _ => "9",
    }
}

/// Renders `n` in decimal.
fn usize_to_string(n: usize) -> (r: String)
    ensures
        r@ == decimal_rep(n as nat),
    decreases n,
{
    if n < 10 {
        digit_str(n).to_owned()
    } else {
        let mut s = usize_to_string(n / 10);
        s.append(digit_str(n % 10));
        proof {
            assert(s@ =~= decimal_rep(n as nat));
        }
        s
    }
}

/// Default wording for a missing required field.
pub open spec fn missing_message() -> Seq<char> {
    "This field is missing."@
}

/// Default wording for a value longer than the configured maximum.
pub open spec fn max_length_message(max: usize) -> Seq<char> {
    "Character length exceeds maximum size of "@ + decimal_rep(max as nat)
}

fn make_missing_message() -> (r: String)
    ensures
        r@ == missing_message(),
{
    "This field is missing.".to_owned()
}

fn make_max_length_message(max: usize) -> (r: String)
    ensures
        r@ == max_length_message(max),
{
    let digits = usize_to_string(max);
    "Character length exceeds maximum size of ".to_owned().concat(digits.as_str())
}

/// Conversion capability for text shapes: how a typed target shape drains the
/// ordered raw values, and whether missing raw input is acceptable for it.
pub trait FromAny: Sized {
    /// Whether this shape accepts absent input.
    spec fn is_optional_spec() -> bool;

    /// The single raw value a shape value stands for, if any: the unified
    /// ghost representation of every text shape.
    spec fn shape_view(v: Self) -> Option<Seq<char>>;

    /// Whether this shape accepts absent input.
    fn is_optional() -> (r: bool)
        ensures
            r == Self::is_optional_spec(),
    ;

    /// Drains the raw values this shape needs: every text shape consumes
    /// exactly the first value. `None` means the values cannot represent the
    /// shape (a required shape given none), and then nothing is consumed.
    fn from_vec(values: &mut Vec<String>) -> (r: Option<Self>)
        ensures
            old(values)@.len() > 0 ==> (r matches Some(t) && Self::shape_view(t) == Some(
                old(values)@[0]@,
            )),
            old(values)@.len() == 0 && Self::is_optional_spec() ==> (r matches Some(t)
                && Self::shape_view(t) is None),
            old(values)@.len() == 0 && !Self::is_optional_spec() ==> r is None,
            old(values)@.len() > 0 ==> final(values)@ == old(values)@.drop_first(),
            old(values)@.len() == 0 ==> final(values)@ == old(values)@,
    ;
}

impl FromAny for String {
    open spec fn is_optional_spec() -> bool {
        false
    }

    open spec fn shape_view(v: Self) -> Option<Seq<char>> {
        Some(v@)
    }

    fn is_optional() -> (r: bool) {
        false
    }

    fn from_vec(values: &mut Vec<String>) -> (r: Option<Self>) {
        if values.len() > 0 {
            let ghost orig = values@;
            let value = values.remove(0);
            proof {
                assert(values@ =~= orig.drop_first());
            }
            Some(value)
        } else {
            // None denotes that the values cannot represent a required string.
            None
        }
    }
}

impl FromAny for Option<String> {
    open spec fn is_optional_spec() -> bool {
        true
    }

    open spec fn shape_view(v: Self) -> Option<Seq<char>> {
        match v {
            Some(s) => Some(s@),
            None => None,
        }
    }

    fn is_optional() -> (r: bool) {
        true
    }

    fn from_vec(values: &mut Vec<String>) -> (r: Option<Self>) {
        if values.len() > 0 {
            let ghost orig = values@;
            let value = values.remove(0);
            proof {
                assert(values@ =~= orig.drop_first());
            }
            Some(Some(value))
        } else {
            // The outer Some denotes a successful conversion: with no values,
            // an optional shape converts to its empty representation.
            Some(None)
        }
    }
}

/// The messages the length check contributes: only the first raw value is
/// held against the configured maximum.
pub open spec fn length_error_messages<H: ErrorHandler>(
    handler: Option<H>,
    name: Seq<char>,
    values: Seq<Seq<char>>,
    max_length: Option<usize>,
) -> Seq<Seq<char>> {
    match max_length {
        Some(max) => if values.len() > 0 && values[0].len() > max {
            applied_messages(
                handler,
                InputFieldErrorView::MaximumLengthExceed(name, values[0], max),
                seq![max_length_message(max)],
            )
        } else {
            Seq::empty()
        },
        None => Seq::empty(),
    }
}

/// Whether a missing-field failure is reported: the shape requires input,
/// none is present, and no default value stands in.
pub open spec fn text_missing_reported(
    raw: Option<Seq<Seq<char>>>,
    default_value: Option<Seq<char>>,
    optional: bool,
) -> bool {
    !optional && raw_is_empty(raw) && default_value is None
}

/// Every message one text-field validation call reports, in order: first the
/// length failure, then the missing-field failure.
pub open spec fn text_error_messages<H: ErrorHandler>(
    handler: Option<H>,
    name: Seq<char>,
    raw: Option<Seq<Seq<char>>>,
    max_length: Option<usize>,
    default_value: Option<Seq<char>>,
    optional: bool,
) -> Seq<Seq<char>> {
    let len_part = match raw {
        Some(vs) => length_error_messages(handler, name, vs, max_length),
        None => Seq::empty(),
    };
    let miss_part = if text_missing_reported(raw, default_value, optional) {
        applied_messages(
            handler,
            InputFieldErrorView::MissingField(name),
            seq![missing_message()],
        )
    } else {
        Seq::empty()
    };
    len_part + miss_part
}

/// What one text-field validation call does: either the messages it reports,
/// or the single raw value (in the unified shape representation) it stores.
pub open spec fn text_field_outcome<H: ErrorHandler>(
    handler: Option<H>,
    name: Seq<char>,
    raw: Option<Seq<Seq<char>>>,
    max_length: Option<usize>,
    default_value: Option<Seq<char>>,
    optional: bool,
) -> Result<Option<Seq<char>>, Seq<Seq<char>>> {
    let errors = text_error_messages(handler, name, raw, max_length, default_value, optional);
    if errors.len() > 0 {
        Err(errors)
    } else if !raw_is_empty(raw) {
        Ok(Some(raw->0[0]))
    } else if !optional {
        Ok(Some(default_value->0))
    } else {
        Ok(None)
    }
}

/// Checks the first raw value against the maximum length constraint, if one is
/// configured, and appends the resulting messages to `errors`.
pub fn validate_input_length<H: ErrorHandler>(
    field_name: &String,
    values: &Vec<String>,
    error_handler: &Option<H>,
    max_length: &Option<usize>,
    errors: &mut Vec<String>,
)
    ensures
        final(errors).deep_view() == old(errors).deep_view() + length_error_messages(
            *error_handler,
            field_name@,
            values.deep_view(),
            *max_length,
        ),
{
    if values.len() == 0 {
        proof {
            assert(errors.deep_view() =~= errors.deep_view() + Seq::<Seq<char>>::empty());
        }
        return ;
    }
    let value: &String = &values[0];
    proof {
        assert(value@ == values.deep_view()[0]);
    }
    match max_length {
        Some(max) => {
            // Checks the maximum value length constraint.
            if value.as_str().unicode_len() > *max {
                let default_message = make_max_length_message(*max);
                match error_handler {
                    Some(handler) => {
                        let error = InputFieldError::MaximumLengthExceed(
                            field_name.clone(),
                            value.clone(),
                            *max,
                        );
                        let defaults = vec![default_message];
                        proof {
                            assert(defaults.deep_view() =~= seq![max_length_message(*max)]);
                        }
                        let mut custom_errors = handler.handle(error, defaults);
                        let ghost custom = custom_errors.deep_view();
                        let ghost before = errors.deep_view();
                        errors.append(&mut custom_errors);
                        proof {
                            assert(errors.deep_view() =~= before + custom);
                        }
                    },
                    None => {
                        let ghost before = errors.deep_view();
                        errors.push(default_message);
                        proof {
                            assert(errors.deep_view() =~= before + seq![
                                max_length_message(*max),
                            ]);
                        }
                    },
                }
            } else {
                proof {
                    assert(errors.deep_view() =~= errors.deep_view()
                        + Seq::<Seq<char>>::empty());
                }
            }
        },
        None => {
            proof {
                assert(errors.deep_view() =~= errors.deep_view() + Seq::<Seq<char>>::empty());
            }
        },
    }
}

/// A configurable text field converting raw string input into the typed shape
/// `T`, with an optional custom error wording `H`. Constructed once per
/// request field, configured by chained builder calls, validated exactly once,
/// and consumed exactly once through `value`.
pub struct InputField<T, H = DefaultWording> {
    field_name: String,
    max_length: Option<usize>,
    default_value: Option<String>,
    error_handler: Option<H>,
    result: Option<T>,
    validated: bool,
}

impl<T: FromAny, H: ErrorHandler> InputField<T, H> {
    /// The field's identifier.
    pub closed spec fn field_name_spec(&self) -> Seq<char> {
        self.field_name@
    }

    /// The configured maximum length, if any.
    pub closed spec fn max_length_spec(&self) -> Option<usize> {
        self.max_length
    }

    /// The configured default value, if any.
    pub closed spec fn default_value_spec(&self) -> Option<Seq<char>> {
        match self.default_value {
            Some(v) => Some(v@),
            None => None,
        }
    }

    /// The configured custom error handler, if any.
    pub closed spec fn handler_spec(&self) -> Option<H> {
        self.error_handler
    }

    /// The value stored by a successful validation call, if one completed.
    pub closed spec fn result_spec(&self) -> Option<T> {
        self.result
    }

    /// Whether a validation call has completed successfully.
    pub closed spec fn validated_spec(&self) -> bool {
        self.validated
    }

    /// A validated field always holds a result.
    pub open spec fn wf(&self) -> bool {
        self.validated_spec() ==> self.result_spec() is Some
    }

    /// Whether both configurations are the same.
    pub open spec fn same_config(&self, other: &Self) -> bool {
        &&& other.field_name_spec() == self.field_name_spec()
        &&& other.max_length_spec() == self.max_length_spec()
        &&& other.default_value_spec() == self.default_value_spec()
        &&& other.handler_spec() == self.handler_spec()
    }

    /// A fresh, unconstrained, not yet validated field named `field_name`.
    pub fn new(field_name: &str) -> (r: Self)
        ensures
            r.field_name_spec() == field_name@,
            r.max_length_spec() is None,
            r.default_value_spec() is None,
            r.handler_spec() is None,
            r.result_spec() is None,
            !r.validated_spec(),
    {
        InputField {
            field_name: field_name.to_owned(),
            max_length: None,
            default_value: None,
            error_handler: None,
            result: None,
            validated: false,
        }
    }

    /// Constrains the first raw value to at most `max_length` characters.
    pub fn max_length(self, max_length: usize) -> (r: Self)
        ensures
            r.max_length_spec() == Some(max_length),
            r.field_name_spec() == self.field_name_spec(),
            r.default_value_spec() == self.default_value_spec(),
            r.handler_spec() == self.handler_spec(),
            r.result_spec() == self.result_spec(),
            r.validated_spec() == self.validated_spec(),
    {
        InputField { max_length: Some(max_length), ..self }
    }

    /// Sets the value used when no raw input is present, which makes the
    /// field effectively optional.
    pub fn set_default(self, value: &str) -> (r: Self)
        ensures
            r.default_value_spec() == Some(value@),
            r.field_name_spec() == self.field_name_spec(),
            r.max_length_spec() == self.max_length_spec(),
            r.handler_spec() == self.handler_spec(),
            r.result_spec() == self.result_spec(),
            r.validated_spec() == self.validated_spec(),
    {
        InputField { default_value: Some(value.to_owned()), ..self }
    }

    /// Replaces the default error wording with `callback`.
    pub fn handle_error_message<H2: ErrorHandler>(self, callback: H2) -> (r: InputField<T, H2>)
        ensures
            r.handler_spec() == Some(callback),
            r.field_name_spec() == self.field_name_spec(),
            r.max_length_spec() == self.max_length_spec(),
            r.default_value_spec() == self.default_value_spec(),
            r.result_spec() == self.result_spec(),
            r.validated_spec() == self.validated_spec(),
    {
        InputField {
            field_name: self.field_name,
            max_length: self.max_length,
            default_value: self.default_value,
            error_handler: Some(callback),
            result: self.result,
            validated: self.validated,
        }
    }

    /// Whether a validation call has completed successfully; `value` may only
    /// be called once it has.
    pub fn is_validated(&self) -> (r: bool)
        ensures
            r == self.validated_spec(),
    {
        self.validated
    }

    /// Takes the validated value out of the field. Calling this before a
    /// successful validation call is a contract violation, not a recoverable
    /// error, so the precondition rules it out.
    pub fn value(self) -> (r: T)
        requires
            self.wf(),
            self.validated_spec(),
        ensures
            Some(r) == self.result_spec(),
    {
        match self.result {
            Some(t) => t,
            None => unreached(),
        }
    }
}

impl<T: FromAny, H: ErrorHandler> AbstractFields for InputField<T, H> {
    open spec fn name_spec(&self) -> Seq<char> {
        self.field_name_spec()
    }

    open spec fn validate_req(&self, form_data: FormData, files: Files) -> bool {
        &&& self.wf()
        &&& form_data.wf()
        &&& files.wf()
        &&& match self.handler_spec() {
            // A handler may rewrite a failure's report, but not swallow it: an
            // empty message list never doubles as "no error". A swallowed
            // missing-field report would moreover leave a required shape with
            // nothing to convert.
            Some(h) => {
                let raw = raw_of(form_data@, self.field_name_spec());
                &&& (text_missing_reported(raw, self.default_value_spec(), T::is_optional_spec())
                    ==> h.handle_spec(
                    InputFieldErrorView::MissingField(self.field_name_spec()),
                    seq![missing_message()],
                ).len() > 0)
                &&& match (raw, self.max_length_spec()) {
                    (Some(vs), Some(max)) => vs.len() > 0 && vs[0].len() > max
                        ==> h.handle_spec(
                        InputFieldErrorView::MaximumLengthExceed(
                            self.field_name_spec(),
                            vs[0],
                            max,
                        ),
                        seq![max_length_message(max)],
                    ).len() > 0,
                    _ => true,
                }
            },
            None => true,
        }
    }

    open spec fn validate_ens(
        &self,
        old_form: FormData,
        old_files: Files,
        new_self: Self,
        new_form: FormData,
        new_files: Files,
        r: Result<(), Seq<Seq<char>>>,
    ) -> bool {
        let raw = raw_of(old_form@, self.field_name_spec());
        let outcome = text_field_outcome(
            self.handler_spec(),
            self.field_name_spec(),
            raw,
            self.max_length_spec(),
            self.default_value_spec(),
            T::is_optional_spec(),
        );
        &&& new_form.wf()
        &&& new_form@ == old_form@.remove(self.field_name_spec())
        &&& new_files == old_files
        &&& new_self.wf()
        &&& self.same_config(&new_self)
        &&& match r {
            Ok(_) => outcome matches Ok(sv) && new_self.validated_spec() && (
            new_self.result_spec() matches Some(t) && T::shape_view(t) == sv),
            Err(es) => outcome == Err::<Option<Seq<char>>, _>(es) && new_self.validated_spec()
                == self.validated_spec() && new_self.result_spec() == self.result_spec(),
        }
    }

    fn field_name(&self) -> (r: String) {
        self.field_name.clone()
    }

    fn validate(&mut self, form_data: &mut FormData, files: &mut Files) -> (r: Result<
        (),
        Vec<String>,
    >) {
        let ghost old_form_view = form_data@;
        let field_name = self.field_name.clone();

        // Takes this field's raw values out of the form input.
        let removed = form_data.remove(&field_name);
        let ghost raw = raw_of(old_form_view, self.field_name@);
        let mut values: Vec<String> = match removed {
            Some(vs) => vs,
            None => Vec::new(),
        };
        proof {
            if raw is Some {
                assert(raw matches Some(vs) && vs == values.deep_view());
            } else {
                assert(values.deep_view() =~= Seq::<Seq<char>>::empty());
            }
        }

        let mut errors: Vec<String> = Vec::new();
        proof {
            assert(errors.deep_view() =~= Seq::<Seq<char>>::empty());
        }
        validate_input_length(
            &field_name,
            &values,
            &self.error_handler,
            &self.max_length,
            &mut errors,
        );
        let ghost len_part = errors.deep_view();

        let is_empty = values.len() == 0;
        let is_optional = T::is_optional();

        // Handles the missing-field case: a configured default value stands in
        // for the absent input; otherwise the failure is reported.
        if !is_optional && is_empty {
            match &self.default_value {
                Some(default_value) => {
                    values.push(default_value.clone());
                },
                None => {
                    let default_message = make_missing_message();
                    match &self.error_handler {
                        Some(handler) => {
                            let error = InputFieldError::MissingField(field_name.clone());
                            let defaults = vec![default_message];
                            proof {
                                assert(defaults.deep_view() =~= seq![missing_message()]);
                            }
                            let mut custom_errors = handler.handle(error, defaults);
                            let ghost custom = custom_errors.deep_view();
                            let ghost before = errors.deep_view();
                            errors.append(&mut custom_errors);
                            proof {
                                assert(errors.deep_view() =~= before + custom);
                            }
                        },
                        None => {
                            let ghost before = errors.deep_view();
                            errors.push(default_message);
                            proof {
                                assert(errors.deep_view() =~= before + seq![missing_message()]);
                            }
                        },
                    }
                },
            }
        } else {
            proof {
                assert(errors.deep_view() =~= len_part + Seq::<Seq<char>>::empty());
            }
        }
        proof {
            assert(errors.deep_view() == text_error_messages(
                self.handler_spec(),
                self.field_name_spec(),
                raw,
                self.max_length_spec(),
                self.default_value_spec(),
                T::is_optional_spec(),
            ));
        }

        if errors.len() > 0 {
            return Err(errors);
        }

        // All validation conditions hold: convert the (possibly defaulted) raw
        // values into the target shape and store the result.
        let converted = T::from_vec(&mut values);
        match converted {
            Some(t) => {
                self.result = Some(t);
                self.validated = true;
                Ok(())
            },
            None => {
                // A required shape converts nothing only when no value is
                // present, and that case was reported above.
                proof {
                    assert(false);
                }
                unreached()
            },
        }
    }
}

/// For every required text shape with no matching raw input and no default
/// value, validation reports the missing-field messages (the default wording,
/// or whatever a configured handler makes of it) and stores nothing.
pub proof fn lemma_required_text_missing<T: FromAny, H: ErrorHandler>(
    handler: Option<H>,
    name: Seq<char>,
    max_length: Option<usize>,
)
    requires
        !T::is_optional_spec(),
        applied_messages(
            handler,
            InputFieldErrorView::MissingField(name),
            seq![missing_message()],
        ).len() > 0,
    ensures
        text_field_outcome(handler, name, None, max_length, None, T::is_optional_spec())
            == Err::<Option<Seq<char>>, _>(
            applied_messages(
                handler,
                InputFieldErrorView::MissingField(name),
                seq![missing_message()],
            ),
        ),
        handler is None ==> text_field_outcome(
            handler,
            name,
            None,
            max_length,
            None,
            T::is_optional_spec(),
        ) == Err::<Option<Seq<char>>, _>(seq![missing_message()]),
{
    let miss = applied_messages(
        handler,
        InputFieldErrorView::MissingField(name),
        seq![missing_message()],
    );
    assert(text_error_messages(handler, name, None, max_length, None, T::is_optional_spec())
        =~= miss);
}

/// For every optional text shape with no matching raw input, validation
/// succeeds and the stored value is the shape's empty representation.
pub proof fn lemma_optional_text_empty<T: FromAny, H: ErrorHandler>(
    handler: Option<H>,
    name: Seq<char>,
    max_length: Option<usize>,
    default_value: Option<Seq<char>>,
)
    requires
        T::is_optional_spec(),
    ensures
        text_field_outcome(handler, name, None, max_length, default_value, T::is_optional_spec())
            == Ok::<_, Seq<Seq<char>>>(None::<Seq<char>>),
{
    assert(text_error_messages(
        handler,
        name,
        None,
        max_length,
        default_value,
        T::is_optional_spec(),
    ) =~= Seq::<Seq<char>>::empty());
}

/// A field with no input at all never reaches the length check: the length
/// failure and the missing-field failure are mutually exclusive.
pub proof fn lemma_length_and_missing_exclusive(
    raw: Option<Seq<Seq<char>>>,
    default_value: Option<Seq<char>>,
    optional: bool,
)
    ensures
        raw matches Some(vs) && vs.len() > 0 ==> !text_missing_reported(
            raw,
            default_value,
            optional,
        ),
{
}

/// A required text shape with no raw input but a configured default value
/// validates successfully, storing the default as if it had been the input.
pub proof fn lemma_default_substituted<T: FromAny, H: ErrorHandler>(
    handler: Option<H>,
    name: Seq<char>,
    max_length: Option<usize>,
    default_value: Seq<char>,
)
    requires
        !T::is_optional_spec(),
    ensures
        text_field_outcome(
            handler,
            name,
            None,
            max_length,
            Some(default_value),
            T::is_optional_spec(),
        ) == Ok::<_, Seq<Seq<char>>>(Some(default_value)),
{
    assert(text_error_messages(
        handler,
        name,
        None,
        max_length,
        Some(default_value),
        T::is_optional_spec(),
    ) =~= Seq::<Seq<char>>::empty());
}

/// A text field given at least one raw value whose first value is within the
/// configured maximum validates successfully and stores that first value,
/// whatever else is configured.
pub proof fn lemma_text_within_limit_accepted<H: ErrorHandler>(
    handler: Option<H>,
    name: Seq<char>,
    raw: Seq<Seq<char>>,
    max_length: Option<usize>,
    default_value: Option<Seq<char>>,
    optional: bool,
)
    requires
        raw.len() > 0,
        match max_length {
            Some(max) => raw[0].len() <= max,
            None => true,
        },
    ensures
        text_field_outcome(handler, name, Some(raw), max_length, default_value, optional)
            == Ok::<_, Seq<Seq<char>>>(Some(raw[0])),
{
    assert(text_error_messages(handler, name, Some(raw), max_length, default_value, optional)
        =~= Seq::<Seq<char>>::empty());
}

/// A text field whose first raw value exceeds the configured maximum length
/// fails, reporting exactly the max-length messages (the default wording, or
/// whatever a configured handler makes of it), and stores nothing.
pub proof fn lemma_overlong_text_rejected<H: ErrorHandler>(
    handler: Option<H>,
    name: Seq<char>,
    raw: Seq<Seq<char>>,
    max_length: usize,
    default_value: Option<Seq<char>>,
    optional: bool,
)
    requires
        raw.len() > 0,
        raw[0].len() > max_length,
        applied_messages(
            handler,
            InputFieldErrorView::MaximumLengthExceed(name, raw[0], max_length),
            seq![max_length_message(max_length)],
        ).len() > 0,
    ensures
        text_field_outcome(handler, name, Some(raw), Some(max_length), default_value, optional)
            == Err::<Option<Seq<char>>, _>(
            applied_messages(
                handler,
                InputFieldErrorView::MaximumLengthExceed(name, raw[0], max_length),
                seq![max_length_message(max_length)],
            ),
        ),
{
    let len_part = applied_messages(
        handler,
        InputFieldErrorView::MaximumLengthExceed(name, raw[0], max_length),
        seq![max_length_message(max_length)],
    );
    assert(text_error_messages(handler, name, Some(raw), Some(max_length), default_value, optional)
        =~= len_part);
}

} // verus!
