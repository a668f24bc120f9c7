//! Rules for single form fields.

use crate::date::parse_date;
use crate::date::parsed_date;
use crate::date::today;
use crate::date::ymd_lt;
use crate::date::Date;
use crate::text::is_blank;
use crate::text::same_text;
use crate::text::text_is_blank;
use crate::text::text_of;
use vstd::prelude::*;

verus! {

/// Why a field was refused: a code that names the rule, and the key of the
/// message to show.
pub struct ValidationError {
    pub code: String,
    pub message: Option<String>,
}

pub struct ValidationErrorView {
    pub code: Seq<char>,
    pub message: Option<Seq<char>>,
}

impl View for ValidationError {
    type V = ValidationErrorView;

    open spec fn view(&self) -> ValidationErrorView {
        ValidationErrorView { code: self.code@, message: text_of(self.message) }
    }
}

/// The refusal with the given code and message.
pub open spec fn refusal(code: Seq<char>, message: Seq<char>) -> ValidationErrorView {
    ValidationErrorView { code, message: Some(message) }
}

/// A verdict on a field as a mathematical value: the refusal, if any.
pub open spec fn verdict(result: Result<(), ValidationError>) -> Option<ValidationErrorView> {
    match result {
        Ok(_) => None,
        Err(e) => Some(e@),
    }
}

pub fn create_validation_error(code: &'static str, message: &'static str) -> (error: ValidationError)
    ensures
        error@ == refusal(code@, message@),
{
    ValidationError { code: String::from_str(code), message: Some(String::from_str(message)) }
}

/// A blank field is refused as required.
pub open spec fn not_blank_verdict(data: Seq<char>) -> Option<ValidationErrorView> {
    if is_blank(data) {
        Some(refusal("length"@, "required"@))
    } else {
        None
    }
}

pub fn validate_not_blank(data: &str) -> (result: Result<(), ValidationError>)
    ensures
        verdict(result) == not_blank_verdict(data@),
{
    if text_is_blank(data) {
        return Err(create_validation_error("length", "required"));
    }
    Ok(())
}

/// A field that is blank, or that is no date written as year-month-day, is
/// refused.
pub open spec fn date_format_verdict(date: Seq<char>) -> Option<ValidationErrorView> {
    if is_blank(date) {
        Some(refusal("length"@, "required"@))
    } else if parsed_date(date) is None {
        Some(refusal("invalid_date"@, "typeMismatch.birthDate"@))
    } else {
        None
    }
}

/// Reads a date field: the date, or why the field is refused.
pub fn validate_date_format(date: &str) -> (result: Result<Date, ValidationError>)
    ensures
        match result {
            Ok(d) => date_format_verdict(date@) is None && parsed_date(date@) == Some(d.ymd()),
            Err(e) => date_format_verdict(date@) == Some(e@),
        },
{
    if text_is_blank(date) {
        return Err(create_validation_error("length", "required"));
    }
    match parse_date(date) {
        Some(d) => Ok(d),
        None => Err(create_validation_error("invalid_date", "typeMismatch.birthDate")),
    }
}

/// A date field passes where it holds a date that is not after `today`.
pub open spec fn today_or_past_verdict(date: Seq<char>, today: Date) -> Option<
    ValidationErrorView,
> {
    if date_format_verdict(date) is Some {
        date_format_verdict(date)
    } else if ymd_lt(today.ymd(), parsed_date(date).unwrap()) {
        Some(refusal("today_or_past_date"@, "typeMismatch.birthDate"@))
    } else {
        None
    }
}

/// Checks a date field against the given day: it must hold that day or an
/// earlier one.
pub fn validate_today_or_past_date_on(date: &str, today: Date) -> (result: Result<
    (),
    ValidationError,
>)
    ensures
        verdict(result) == today_or_past_verdict(date@, today),
{
    match validate_date_format(date) {
        Err(e) => Err(e),
        Ok(target_date) => {
            if today.is_before(&target_date) {
                Err(create_validation_error("today_or_past_date", "typeMismatch.birthDate"))
            } else {
                Ok(())
            }
        },
    }
}

/// Checks a date field against the current day: it must hold today or an
/// earlier day.
pub fn validate_today_or_past_date(date: &str) -> (result: Result<(), ValidationError>)
    ensures
        exists|today: Date| verdict(result) == #[trigger] today_or_past_verdict(date@, today),
{
    validate_today_or_past_date_on(date, today())
}

/// A date field passes where it holds a date that is not before `today`.
pub open spec fn future_verdict(date: Seq<char>, today: Date) -> Option<ValidationErrorView> {
    if date_format_verdict(date) is Some {
        date_format_verdict(date)
    } else if ymd_lt(parsed_date(date).unwrap(), today.ymd()) {
        Some(refusal("future_date"@, "typeMismatch.birthDate"@))
    } else {
        None
    }
}

/// Checks a date field against the given day: it must hold that day or a
/// later one.
pub fn validate_future_date_on(date: &str, today: Date) -> (result: Result<(), ValidationError>)
    ensures
        verdict(result) == future_verdict(date@, today),
{
    match validate_date_format(date) {
        Err(e) => Err(e),
        Ok(target_date) => {
            if target_date.is_before(&today) {
                Err(create_validation_error("future_date", "typeMismatch.birthDate"))
            } else {
                Ok(())
            }
        },
    }
}

/// Checks a date field against the current day: it must hold today or a
/// later day.
pub fn validate_future_date(date: &str) -> (result: Result<(), ValidationError>)
    ensures
        exists|today: Date| verdict(result) == #[trigger] future_verdict(date@, today),
{
    validate_future_date_on(date, today())
}

/// The kinds of pet the clinic treats.
pub open spec fn is_valid_pet_type(data: Seq<char>) -> bool {
    ||| data == "bird"@
    ||| data == "cat"@
    ||| data == "dog"@
    ||| data == "hamster"@
    ||| data == "lizard"@
    ||| data == "snake"@
}

/// A blank pet type is refused as required, one that the clinic does not
/// treat as unknown.
pub open spec fn pet_type_verdict(data: Seq<char>) -> Option<ValidationErrorView> {
    if is_blank(data) {
        Some(refusal("length"@, "required"@))
    } else if !is_valid_pet_type(data) {
        Some(refusal("invalid_pet_type"@, "존재하지 않는 pet type 입니다"@))
    } else {
        None
    }
}

/// None of the kinds of pet the clinic treats is a blank text, so a pet
/// type passes exactly where it is one of them.
pub proof fn pet_type_passes_exactly_the_known(data: Seq<char>)
    ensures
        pet_type_verdict(data) is None <==> is_valid_pet_type(data),
{
    reveal_strlit("bird");
    reveal_strlit("cat");
    reveal_strlit("dog");
    reveal_strlit("hamster");
    reveal_strlit("lizard");
    reveal_strlit("snake");
    if is_valid_pet_type(data) {
        assert(data.len() > 0);
        assert(!crate::text::is_whitespace(data[0]));
        assert(!is_blank(data));
    }
}

pub fn validate_pet_type(data: &str) -> (result: Result<(), ValidationError>)
    ensures
        verdict(result) == pet_type_verdict(data@),
{
    if text_is_blank(data) {
        return Err(create_validation_error("length", "required"));
    }
    let known: bool = same_text(data, "bird") || same_text(data, "cat") || same_text(data, "dog")
        || same_text(data, "hamster") || same_text(data, "lizard") || same_text(data, "snake");
    if !known {
        return Err(create_validation_error("invalid_pet_type", "존재하지 않는 pet type 입니다"));
    }
    Ok(())
}

/// The errors of a list as mathematical values.
pub open spec fn error_views(errors: Seq<ValidationError>) -> Seq<ValidationErrorView> {
    errors.map_values(|e: ValidationError| e@)
}

/// The refusals of one field, in the order in which its rules were checked.
pub struct FieldErrors {
    pub field: String,
    pub errors: Vec<ValidationError>,
}

pub struct FieldErrorsView {
    pub field: Seq<char>,
    pub errors: Seq<ValidationErrorView>,
}

impl View for FieldErrors {
    type V = FieldErrorsView;

    open spec fn view(&self) -> FieldErrorsView {
        FieldErrorsView { field: self.field@, errors: error_views(self.errors@) }
    }
}

/// The fields of a list as mathematical values.
pub open spec fn field_views(fields: Seq<FieldErrors>) -> Seq<FieldErrorsView> {
    fields.map_values(|f: FieldErrors| f@)
}

/// Index of the first entry at or after `from` that is for `field`, or the
/// length of the list where there is none.
pub open spec fn field_index(fields: Seq<FieldErrorsView>, field: Seq<char>, from: int) -> int
    decreases fields.len() - from,
{
    if from < 0 || from >= fields.len() {
        fields.len() as int
    } else if fields[from].field == field {
        from
    } else {
        field_index(fields, field, from + 1)
    }
}

/// The list with one more refusal of `field`: after those that the field
/// has, or as a new last entry where it has none.
pub open spec fn with_error(
    fields: Seq<FieldErrorsView>,
    field: Seq<char>,
    error: ValidationErrorView,
) -> Seq<FieldErrorsView> {
    let i = field_index(fields, field, 0);
    if 0 <= i < fields.len() {
        fields.update(i, FieldErrorsView { field: fields[i].field, errors: fields[i].errors.push(error) })
    } else {
        fields.push(FieldErrorsView { field, errors: seq![error] })
    }
}

/// The list with the refusal added where there is one.
pub open spec fn with_verdict(
    fields: Seq<FieldErrorsView>,
    field: Seq<char>,
    verdict: Option<ValidationErrorView>,
) -> Seq<FieldErrorsView> {
    match verdict {
        Some(error) => with_error(fields, field, error),
        None => fields,
    }
}

/// The refusals of a form, field by field, in the order in which the fields
/// were first refused.
pub struct ValidationErrors {
    fields: Vec<FieldErrors>,
}

impl View for ValidationErrors {
    type V = Seq<FieldErrorsView>;

    closed spec fn view(&self) -> Seq<FieldErrorsView> {
        field_views(self.fields@)
    }
}

impl ValidationErrors {
    pub fn new() -> (errors: ValidationErrors)
        ensures
            errors@ == Seq::<FieldErrorsView>::empty(),
    {
        let errors = ValidationErrors { fields: Vec::new() };
        assert(errors@ =~= Seq::empty());
        errors
    }

    /// Adds a refusal of `field`.
    pub fn add(&mut self, field: &str, error: ValidationError)
        ensures
            final(self)@ == with_error(old(self)@, field@, error@),
    {
        let ghost before = self@;
        let mut i: usize = 0;
        let mut found: bool = false;
        while i < self.fields.len() && !found
            invariant
                i <= self.fields@.len(),
                before == field_views(self.fields@),
                field_index(before, field@, 0) == field_index(before, field@, i as int),
                found ==> i < self.fields@.len() && before[i as int].field == field@,
            decreases self.fields@.len() - i + (if found { 0int } else { 1int }),
        {
            assert(before[i as int] == self.fields@[i as int]@);
            if same_text(self.fields[i].field.as_str(), field) {
                found = true;
            } else {
                i = i + 1;
            }
        }
        if found {
            assert(before[i as int] == self.fields@[i as int]@);
            let mut entry = self.fields.remove(i);
            entry.errors.push(error);
            assert(error_views(entry.errors@) =~= before[i as int].errors.push(error@));
            self.fields.insert(i, entry);
            assert(field_views(self.fields@) =~= with_error(before, field@, error@));
        } else {
            let mut errors: Vec<ValidationError> = Vec::new();
            errors.push(error);
            assert(error_views(errors@) =~= seq![error@]);
            self.fields.push(FieldErrors { field: String::from_str(field), errors });
            assert(field_views(self.fields@) =~= with_error(before, field@, error@));
        }
    }

    /// Adds the refusal of `field`, where the verdict is one.
    pub fn add_verdict(&mut self, field: &str, result: Result<(), ValidationError>)
        ensures
            final(self)@ == with_verdict(old(self)@, field@, verdict(result)),
    {
        match result {
            Ok(_) => {},
            Err(error) => {
                self.add(field, error);
            },
        }
    }

    pub fn is_empty(&self) -> (r: bool)
        ensures
            r == (self@.len() == 0),
    {
        self.fields.len() == 0
    }

    /// The refused fields with their refusals.
    pub fn field_errors(&self) -> (fields: &Vec<FieldErrors>)
        ensures
            field_views(fields@) == self@,
    {
        &self.fields
    }
}

/// The refusal of an empty field.
pub open spec fn empty_refusal() -> ValidationErrorView {
    refusal("length"@, "공백일 수 없습니다"@)
}

/// The list with `field` refused as empty where `value` is empty.
pub open spec fn with_length_check(
    fields: Seq<FieldErrorsView>,
    field: Seq<char>,
    value: Seq<char>,
) -> Seq<FieldErrorsView> {
    if value.len() < 1 {
        with_error(fields, field, empty_refusal())
    } else {
        fields
    }
}

/// Refuses `field` as empty where `value` is empty.
pub fn check_length(errors: &mut ValidationErrors, field: &str, value: &str)
    ensures
        final(errors)@ == with_length_check(old(errors)@, field@, value@),
{
    if value.unicode_len() < 1 {
        errors.add(
            field,
            ValidationError {
                code: String::from_str("length"),
                message: Some(String::from_str("공백일 수 없습니다")),
            },
        );
    }
}

pub const OK: u16 = 200;

pub const BAD_REQUEST: u16 = 400;

/// The status of the page that shows a form: a form with refusals is shown
/// again as a bad request.
pub fn form_status(errors: &ValidationErrors) -> (status: u16)
    ensures
        status == if errors@.len() == 0 {
            OK
        } else {
            BAD_REQUEST
        },
{
    if errors.is_empty() {
        OK
    } else {
        BAD_REQUEST
    }
}

} // verus!
