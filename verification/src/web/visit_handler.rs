//! What the visit pages decide: which fields of a visit form are refused.

use crate::date::today;
use crate::date::Date;
use crate::web::validator::check_length;
use crate::web::validator::future_verdict;
use crate::web::validator::validate_future_date_on;
use crate::web::validator::with_length_check;
use crate::web::validator::with_verdict;
use crate::web::validator::FieldErrorsView;
use crate::web::validator::ValidationErrors;
use vstd::prelude::*;

verus! {

/// The fields of the form that books a visit.
pub struct CreateVisitForm {
    pub date: String,
    pub description: String,
}

pub struct VisitFormView {
    pub date: Seq<char>,
    pub description: Seq<char>,
}

impl View for CreateVisitForm {
    type V = VisitFormView;

    open spec fn view(&self) -> VisitFormView {
        VisitFormView { date: self.date@, description: self.description@ }
    }
}

/// The refusals of a visit form on the day `today`: the date must be a day
/// from today on, and the description must not be empty.
pub open spec fn visit_form_errors(form: VisitFormView, today: Date) -> Seq<FieldErrorsView> {
    let e = Seq::<FieldErrorsView>::empty();
    let e = with_verdict(e, "date"@, future_verdict(form.date, today));
    with_length_check(e, "description"@, form.description)
}

impl CreateVisitForm {
    /// Checks the form against its rules, as of the given day.
    pub fn validate_on(&self, today: Date) -> (errors: ValidationErrors)
        ensures
            errors@ == visit_form_errors(self@, today),
    {
        let mut errors = ValidationErrors::new();
        errors.add_verdict("date", validate_future_date_on(self.date.as_str(), today));
        check_length(&mut errors, "description", self.description.as_str());
        errors
    }

    /// Checks the form against its rules, as of the current day.
    pub fn validate(&self) -> (errors: ValidationErrors)
        ensures
            exists|today: Date| errors@ == #[trigger] visit_form_errors(self@, today),
    {
        self.validate_on(today())
    }
}

} // verus!
