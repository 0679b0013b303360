use vstd::prelude::*;
use vstd::string::StringExecFns;

verus! {

/// The base delay, in seconds, of the weather feed's retry schedule: a
/// failed download is retried after this long, doubling on each consecutive
/// failure until a download succeeds.
pub const RETRY_DELAY_S: u64 = 15;

/// The weather feed's configuration, as plain values: which station to poll,
/// how often, where to write the optional human-readable summary, and the
/// data identifying this client to the service.
pub struct Cli {
    pub station_id: String,
    pub interval: u64,
    pub summary_file: Option<String>,
    pub app_name: String,
    pub app_version: String,
    pub app_url: String,
    pub admin_email: String,
}

/// Data needed to construct the user-agent header the weather service
/// recommends: ApplicationName/vX.Y (http://your.app.url/; contact email).
pub struct UserAgent {
    pub app_name: String,
    pub app_version: String,
    pub app_url: String,
    pub admin_email: String,
}

/// The user-agent header line for the given parts:
/// `name/version (url; email)`.
pub open spec fn user_agent_spec(
    app_name: Seq<char>,
    app_version: Seq<char>,
    app_url: Seq<char>,
    admin_email: Seq<char>,
) -> Seq<char> {
    app_name + "/"@ + app_version + " ("@ + app_url + "; "@ + admin_email + ")"@
}

impl UserAgent {
    /// Copies the identifying fields out of the configuration.
    pub fn from_cli(cli: &Cli) -> (ua: UserAgent)
        ensures
            ua.app_name@ == cli.app_name@,
            ua.app_version@ == cli.app_version@,
            ua.app_url@ == cli.app_url@,
            ua.admin_email@ == cli.admin_email@,
    {
        UserAgent {
            app_name: cli.app_name.clone(),
            app_version: cli.app_version.clone(),
            app_url: cli.app_url.clone(),
            admin_email: cli.admin_email.clone(),
        }
    }

    /// Renders the user-agent header value: `name/version (url; email)`.
    pub fn header_value(&self) -> (s: String)
        ensures
            s@ == user_agent_spec(
                self.app_name@,
                self.app_version@,
                self.app_url@,
                self.admin_email@,
            ),
    {
        let mut s = self.app_name.clone();
        s.append("/");
        s.append(self.app_version.as_str());
        s.append(" (");
        s.append(self.app_url.as_str());
        s.append("; ");
        s.append(self.admin_email.as_str());
        s.append(")");
        s
    }
}

/// The URL of the latest observation of a station.
pub open spec fn station_url_spec(station_id: Seq<char>) -> Seq<char> {
    "https://api.weather.gov/stations/"@ + station_id
        + "/observations/latest?require_qc=false"@
}

/// Builds the URL the feed polls for the station's latest observation.
pub fn station_url(station_id: &str) -> (url: String)
    ensures
        url@ == station_url_spec(station_id@),
{
    let mut url = String::from_str("https://api.weather.gov/stations/");
    url.append(station_id);
    url.append("/observations/latest?require_qc=false");
    url
}

} // verus!
