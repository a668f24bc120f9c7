//! What the owner pages decide: which fields of an owner form are refused,
//! what a search for owners is answered with, and whether an update names
//! the owner it is sent to.

use crate::model::app_error::AppError;
use crate::model::app_error::AppErrorView;
use crate::model::page::page_of;
use crate::model::page::Page;
use crate::model::page::PageView;
use crate::service::owner_service::OwnersWithPetNames;
use crate::text::decimal;
use crate::text::decimal_text;
use crate::text::text_of;
use crate::web::validator::check_length;
use crate::web::validator::with_length_check;
use crate::web::validator::with_error;
use crate::web::validator::FieldErrorsView;
use crate::web::validator::ValidationError;
use crate::web::validator::ValidationErrorView;
use crate::web::validator::ValidationErrors;
use regex::Regex;
use vstd::prelude::*;

verus! {

/// How weighty a flash message is.
#[derive(Clone, Copy, Debug, PartialEq, Eq, Structural)]
pub enum Level {
    Debug,
    Info,
    Success,
    Warning,
    Error,
}

/// A message left for the next page by the request before it.
pub struct FlashMessage {
    pub level: Level,
    pub content: String,
}

/// Index of the last of the first `n` messages that has the given level, or
/// -1 where none has.
pub open spec fn last_of_level(messages: Seq<FlashMessage>, level: Level, n: int) -> int
    decreases n,
{
    if n <= 0 {
        -1
    } else if messages[n - 1].level == level {
        n - 1
    } else {
        last_of_level(messages, level, n - 1)
    }
}

/// The content of the last message of the given level, if there is one.
pub open spec fn last_content(messages: Seq<FlashMessage>, level: Level) -> Option<Seq<char>> {
    let i = last_of_level(messages, level, messages.len() as int);
    if i >= 0 {
        Some(messages[i].content@)
    } else {
        None
    }
}

/// The text of an optional borrowed string.
pub open spec fn borrowed_text(o: Option<&String>) -> Option<Seq<char>> {
    match o {
        Some(s) => Some(s@),
        None => None,
    }
}

/// Picks the messages to show: the last information as the success
/// message, the last error as the error message.
pub fn extract_flash_messages(messages: &Vec<FlashMessage>) -> (shown: (
    Option<&String>,
    Option<&String>,
))
    ensures
        borrowed_text(shown.0) == last_content(messages@, Level::Info),
        borrowed_text(shown.1) == last_content(messages@, Level::Error),
{
    let mut success_message: Option<&String> = None;
    let mut error_message: Option<&String> = None;
    let mut i: usize = 0;
    while i < messages.len()
        invariant
            i <= messages@.len(),
            last_of_level(messages@, Level::Info, i as int) >= 0 ==> success_message == Some(
                &messages@[last_of_level(messages@, Level::Info, i as int)].content,
            ),
            last_of_level(messages@, Level::Info, i as int) < 0 ==> success_message is None,
            last_of_level(messages@, Level::Error, i as int) >= 0 ==> error_message == Some(
                &messages@[last_of_level(messages@, Level::Error, i as int)].content,
            ),
            last_of_level(messages@, Level::Error, i as int) < 0 ==> error_message is None,
        decreases messages@.len() - i,
    {
        let message = &messages[i];
        match message.level {
            Level::Info => {
                success_message = Some(&message.content);
            },
            Level::Error => {
                error_message = Some(&message.content);
            },
            _ => {},
        }
        i = i + 1;
    }
    (success_message, error_message)
}

/// The fields of the form that creates or updates an owner.
pub struct CreateOrUpdateOwnerForm {
    pub first_name: String,
    pub last_name: String,
    pub address: String,
    pub city: String,
    pub telephone: String,
    pub id: String,
}

pub struct OwnerFormView {
    pub first_name: Seq<char>,
    pub last_name: Seq<char>,
    pub address: Seq<char>,
    pub city: Seq<char>,
    pub telephone: Seq<char>,
    pub id: Seq<char>,
}

impl View for CreateOrUpdateOwnerForm {
    type V = OwnerFormView;

    open spec fn view(&self) -> OwnerFormView {
        OwnerFormView {
            first_name: self.first_name@,
            last_name: self.last_name@,
            address: self.address@,
            city: self.city@,
            telephone: self.telephone@,
            id: self.id@,
        }
    }
}

/// A telephone number is ten digits.
pub const PHONE_PATTERN: &'static str = "^\\d{10}$";

/// An id is digits only, or empty.
pub const NUMERIC_PATTERN: &'static str = "^(?:\\d+)?$";

/// Whether a regular expression finds a match in a text: `Some` of the
/// answer, or `None` where the pattern is no regular expression.
pub uninterp spec fn regex_match(pattern: Seq<char>, text: Seq<char>) -> Option<bool>;

/// `regex::Regex::new` and, on the expression it gives, `Regex::is_match`:
/// whether the pattern finds a match anywhere in the text, or `None` where
/// `new` refuses the pattern. The result depends on the two texts alone.
#[verifier::external_body]
fn regex_is_match(pattern: &str, text: &str) -> (found: Option<bool>)
    ensures
        found == regex_match(pattern@, text@),
{
    match Regex::new(pattern) {
        Ok(expression) => Some(expression.is_match(text)),
        Err(_) => None,
    }
}

/// The refusal of a field that a pattern does not accept.
pub open spec fn pattern_refusal(message: Option<Seq<char>>) -> ValidationErrorView {
    ValidationErrorView { code: "regex"@, message }
}

/// The list with `field` refused unless the pattern finds a match in
/// `value`.
pub open spec fn with_pattern_check(
    fields: Seq<FieldErrorsView>,
    field: Seq<char>,
    value: Seq<char>,
    pattern: Seq<char>,
    message: Option<Seq<char>>,
) -> Seq<FieldErrorsView> {
    if regex_match(pattern, value) == Some(true) {
        fields
    } else {
        with_error(fields, field, pattern_refusal(message))
    }
}

/// The refusals of an owner form: each of the names, the address, the city
/// and the telephone number must not be empty, the telephone number must be
/// ten digits, and the id digits only.
pub open spec fn owner_form_errors(form: OwnerFormView) -> Seq<FieldErrorsView> {
    let e = Seq::<FieldErrorsView>::empty();
    let e = with_length_check(e, "first_name"@, form.first_name);
    let e = with_length_check(e, "last_name"@, form.last_name);
    let e = with_length_check(e, "address"@, form.address);
    let e = with_length_check(e, "city"@, form.city);
    let e = with_length_check(e, "telephone"@, form.telephone);
    let e = with_pattern_check(
        e,
        "telephone"@,
        form.telephone,
        PHONE_PATTERN@,
        Some("Telephone must be a 10-digit number"@),
    );
    with_pattern_check(e, "id"@, form.id, NUMERIC_PATTERN@, None)
}

/// Refuses `field` unless the pattern finds a match in `value`.
pub fn check_pattern(
    errors: &mut ValidationErrors,
    field: &str,
    value: &str,
    pattern: &str,
    message: Option<String>,
)
    ensures
        final(errors)@ == with_pattern_check(
            old(errors)@,
            field@,
            value@,
            pattern@,
            text_of(message),
        ),
{
    match regex_is_match(pattern, value) {
        Some(true) => {},
        _ => {
            errors.add(field, ValidationError { code: String::from_str("regex"), message });
        },
    }
}

impl CreateOrUpdateOwnerForm {
    /// Checks the form against its rules.
    pub fn validate(&self) -> (errors: ValidationErrors)
        ensures
            errors@ == owner_form_errors(self@),
    {
        let mut errors = ValidationErrors::new();
        check_length(&mut errors, "first_name", self.first_name.as_str());
        check_length(&mut errors, "last_name", self.last_name.as_str());
        check_length(&mut errors, "address", self.address.as_str());
        check_length(&mut errors, "city", self.city.as_str());
        check_length(&mut errors, "telephone", self.telephone.as_str());
        check_pattern(
            &mut errors,
            "telephone",
            self.telephone.as_str(),
            PHONE_PATTERN,
            Some(String::from_str("Telephone must be a 10-digit number")),
        );
        check_pattern(&mut errors, "id", self.id.as_str(), NUMERIC_PATTERN, None);
        errors
    }
}

/// The path of an owner's page.
pub open spec fn owner_path_of(owner_id: u32) -> Seq<char> {
    "/owners/"@ + decimal_text(owner_id as nat)
}

/// The path of an owner's page, to which a request is redirected once it
/// has changed the owner or what belongs to it.
pub fn owner_path(owner_id: u32) -> (path: String)
    ensures
        path@ == owner_path_of(owner_id),
{
    String::from_str("/owners/").concat(decimal(owner_id).as_str())
}

/// The parameters of a search for owners, as the request gives them.
pub struct FindOwnerRequestQueryParams {
    pub last_name: Option<String>,
    pub page: Option<u64>,
    pub size: Option<u64>,
}

/// A search for owners: the start of the last name, the page to show and
/// the number of owners on a page.
pub struct FindQuery {
    pub last_name: String,
    pub page: u64,
    pub size: u64,
}

impl FindOwnerRequestQueryParams {
    /// The search that the parameters ask for: any last name, the first
    /// page and five owners on a page, unless they say otherwise.
    pub fn query(self) -> (query: FindQuery)
        ensures
            query.last_name@ == match self.last_name {
                Some(name) => name@,
                None => Seq::<char>::empty(),
            },
            query.page == match self.page {
                Some(page) => page,
                None => 1,
            },
            query.size == match self.size {
                Some(size) => size,
                None => 5,
            },
    {
        FindQuery {
            last_name: match self.last_name {
                Some(name) => name,
                None => String::new(),
            },
            page: match self.page {
                Some(page) => page,
                None => 1,
            },
            size: match self.size {
                Some(size) => size,
                None => 5,
            },
        }
    }
}

/// The index that the paginator knows a page by: pages count from one,
/// indices from zero.
pub fn page_index(page: u64) -> (index: u64)
    requires
        page >= 1,
    ensures
        index == page - 1,
{
    page - 1
}

/// What a search that matched some owner is answered with.
pub enum FindOutcome {
    /// The one owner found is shown: a redirect to its page.
    Redirect(String),
    /// The owners of the page are listed, with this pagination.
    List(Page),
}

pub enum FindOutcomeView {
    Redirect(Seq<char>),
    List(PageView),
}

impl View for FindOutcome {
    type V = FindOutcomeView;

    open spec fn view(&self) -> FindOutcomeView {
        match self {
            FindOutcome::Redirect(path) => FindOutcomeView::Redirect(path@),
            FindOutcome::List(page) => FindOutcomeView::List(page@),
        }
    }
}

/// Whether a search found nothing, so that the search form is shown again
/// with the message that says so.
pub fn nothing_found(owner_total_count: u64) -> (r: bool)
    ensures
        r == (owner_total_count == 0),
{
    owner_total_count == 0
}

/// The answer to a search that matched `owner_total_count` owners, of which
/// `owners` stand on the page `cur_page`: a first page with one owner on it
/// goes straight to that owner; anything else is listed.
pub open spec fn find_outcome_of(
    cur_page: u64,
    owner_total_count: u64,
    owners: Seq<OwnersWithPetNames>,
) -> FindOutcomeView {
    if cur_page == 1 && owners.len() == 1 {
        FindOutcomeView::Redirect(owner_path_of(owners[0].id))
    } else {
        FindOutcomeView::List(page_of(cur_page as int, owner_total_count as int))
    }
}

pub fn find_outcome(cur_page: u64, owner_total_count: u64, owners: &Vec<OwnersWithPetNames>) -> (outcome:
    FindOutcome)
    ensures
        outcome@ == find_outcome_of(cur_page, owner_total_count, owners@),
{
    if cur_page == 1 && owners.len() == 1 {
        FindOutcome::Redirect(owner_path(owners[0].id))
    } else {
        FindOutcome::List(Page::new(cur_page, owner_total_count))
    }
}

/// The failure that reports that an update names another owner than the
/// one it was sent to.
pub open spec fn owner_id_mismatch(path_id: u32, body_id: u32) -> AppErrorView {
    AppErrorView::ResourceIdMismatch { resource: "owner"@, path_id, body_id }
}

/// Checks that the owner an update names is the one it was sent to.
pub fn check_owner_id(owner_id: u32, body_owner_id: u32) -> (result: Result<(), AppError>)
    ensures
        body_owner_id == owner_id ==> result is Ok,
        body_owner_id != owner_id ==> result is Err && result->Err_0@ == owner_id_mismatch(
            owner_id,
            body_owner_id,
        ),
{
    if body_owner_id != owner_id {
        return Err(
            AppError::ResourceIdMismatch {
                resource: String::from_str("owner"),
                path_id: owner_id,
                body_id: body_owner_id,
            },
        );
    }
    Ok(())
}

} // verus!
