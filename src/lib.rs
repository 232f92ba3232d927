//! Command handlers of a desktop shell: a greeting, and the decisions behind
//! opening, closing and focusing secondary windows. The windowing subsystem
//! itself stays outside: the library says what to ask of it and what to
//! answer once it has replied.

mod address;
mod error;
mod greeting;
mod session;

pub use address::url_parse_failure;
pub use error::{fault_message, WindowError, WindowFault};
pub use greeting::{greet, greeting_head, greeting_of, greeting_tail, lemma_greeting_holds_name};
pub use session::{
    accepts_spec, answers_spec, ended_spec, finish_spec, makes_window, opened_spec, outcome_view,
    reply_view, run_spec, start_spec, step_spec, Action, ActionModel, CommandModel, Report,
    ReportModel, Session, SessionModel, WindowCommand,
};
pub use session::{
    lemma_close_of_absent_window_succeeds, lemma_focus_of_absent_window_succeeds,
    lemma_malformed_address_opens_nothing, lemma_missing_main_window_opens_nothing,
    lemma_second_close_succeeds, lemma_well_formed_address_opens_window,
};
