use vstd::prelude::*;
use crate::config::MonitorConfig;
use crate::location::LogLocation;
use crate::monitor::Monitor;
use crate::report::ErrorReport;

verus! {

#[verifier::external_type_specification]
#[verifier::external_body]
pub struct ExClient(::rollbar::Client);

/// Relies on rollbar's `Client::new`: an HTTPS client bound to the token and
/// the environment. It panics only when TLS cannot be initialised on the
/// machine, which no argument decides.
#[verifier::external_body]
fn new_client(access_token: String, environment: String) -> ::rollbar::Client {
    ::rollbar::Client::new(access_token, environment)
}

/// Relies on rollbar's `Client::build_report`, `ReportBuilder::from_error_message`,
/// `ReportErrorBuilder::with_frame` and `ReportErrorBuilder::send`, and on
/// `FrameBuilder`: posts one item with the report's message and frame from a
/// background thread, which swallows transport errors. The handle to that
/// thread is dropped.
#[verifier::external_body]
fn post_error_report(client: &::rollbar::Client, report: &ErrorReport) {
    let frame = ::rollbar::FrameBuilder::new()
        .with_line_number(report.frame.line_number)
        .with_file_name(report.frame.file_name.as_str())
        .build();
    client.build_report().from_error_message(&report.message).with_frame(frame).send();
}

/// The Rollbar backend: a client bound to an access token and an environment.
pub struct Rollbar {
    client: ::rollbar::Client,
    access_token: String,
    environment: String,
}

impl Rollbar {
    pub closed spec fn spec_access_token(&self) -> Seq<char> {
        self.access_token@
    }

    pub closed spec fn spec_environment(&self) -> Seq<char> {
        self.environment@
    }

    /// The access token the client sends with each report.
    pub fn access_token(&self) -> (r: &str)
        ensures
            r@ == self.spec_access_token(),
    {
        self.access_token.as_str()
    }

    /// The environment each report is tagged with.
    pub fn environment(&self) -> (r: &str)
        ensures
            r@ == self.spec_environment(),
    {
        self.environment.as_str()
    }

    /// The underlying client, for dispatching panic reports.
    pub fn client(&self) -> &::rollbar::Client {
        &self.client
    }
}

impl Monitor for Rollbar {
    /// Builds the client at once: a machine without TLS support fails here, at
    /// startup, rather than at the first report.
    fn from_config(config: &MonitorConfig) -> (r: Rollbar)
        ensures
            r.spec_access_token() == config.access_token@,
            r.spec_environment() == config.environment@,
    {
        let access_token = config.access_token.clone();
        let environment = config.environment.clone();
        let client = new_client(access_token.clone(), environment.clone());
        Rollbar { client, access_token, environment }
    }

    /// Posts the report for `error_message` at `location`: its message and a
    /// single frame with the location's file and line.
    fn send(&self, error_message: &String, location: &LogLocation) {
        let report = ErrorReport::at(error_message, location);
        post_error_report(&self.client, &report);
    }
}

} // verus!
