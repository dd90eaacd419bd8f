use crate::grade::cells_view;
use vstd::prelude::*;

verus! {

/// Seconds between two polling cycles in the default configuration.
pub const DEFAULT_SLEEP_SECS: u64 = 600;

/// Port of the browser driver in the default configuration.
pub const DEFAULT_DRIVER_PORT: u16 = 4444;

/// Settings of the scraper, read again at the start of every cycle.
#[derive(Debug, Clone)]
pub struct Config {
    pub ent_login_email: String,
    pub ent_password: String,
    pub gmail_login_email: String,
    pub gmail_login_password: String,
    /// The sender address; the login address when absent.
    pub gmail_from_email: Option<String>,
    pub to_emails: Vec<String>,
    /// Where the last snapshot of grades is kept.
    pub data_file: String,
    /// Time between two cycles, in seconds.
    pub sleep_time_secs: u64,
    pub geckodriver_port: u16,
}

/// Why a configuration is refused at load time.
#[derive(Debug, Clone)]
pub enum ConfigError {
    /// The mail login is not a well-formed address.
    InvalidLoginEmail(String),
    /// The sender address is not a well-formed address.
    InvalidFromEmail(String),
    /// These recipients, in order, are not well-formed addresses.
    InvalidToEmails(Vec<String>),
}

/// Whether `lettre` accepts `s` as a mail address.
pub uninterp spec fn mail_address_ok(s: Seq<char>) -> bool;

/// Relies on `lettre::Address`'s `FromStr`: whether the text parses as an
/// address depends on the text alone.
#[verifier::external_body]
fn parse_address_ok(s: &String) -> (r: bool)
    ensures
        r == mail_address_ok(s@),
{
    s.parse::<lettre::Address>().is_ok()
}

/// The recipients that are not well-formed addresses, in order.
pub open spec fn invalid_addresses(emails: Seq<String>) -> Seq<Seq<char>> {
    cells_view(emails).filter(|e: Seq<char>| !mail_address_ok(e))
}

/// The configuration that is written when none exists.
pub open spec fn is_default_config(c: Config) -> bool {
    &&& c.ent_login_email@ == "[...]@etu.umontpellier.fr"@
    &&& c.ent_password@ == "..."@
    &&& c.gmail_login_email@ == "[...]@gmail.[...]"@
    &&& c.gmail_login_password@ == "app password"@
    &&& c.gmail_from_email is Some
    &&& c.gmail_from_email->Some_0@ == "different mail (alias) or remove this part"@
    &&& cells_view(c.to_emails@) == seq!["mail1@gmail.com"@, "mail2@hotmail.com"@]
    &&& c.data_file@ == "./grades.yaml"@
    &&& c.sleep_time_secs == DEFAULT_SLEEP_SECS
    &&& c.geckodriver_port == DEFAULT_DRIVER_PORT
}

impl Default for Config {
    fn default() -> (r: Config)
        ensures
            is_default_config(r),
    {
        Config::default_config()
    }
}

impl Config {
    /// The configuration that is written when none exists.
    pub fn default_config() -> (r: Config)
        ensures
            is_default_config(r),
    {
        let mut to_emails: Vec<String> = Vec::new();
        to_emails.push(String::from_str("mail1@gmail.com"));
        to_emails.push(String::from_str("mail2@hotmail.com"));
        proof {
            reveal_strlit("mail1@gmail.com");
            reveal_strlit("mail2@hotmail.com");
            assert(cells_view(to_emails@) =~= seq!["mail1@gmail.com"@, "mail2@hotmail.com"@]);
        }
        Config {
            ent_login_email: String::from_str("[...]@etu.umontpellier.fr"),
            ent_password: String::from_str("..."),
            gmail_login_email: String::from_str("[...]@gmail.[...]"),
            gmail_login_password: String::from_str("app password"),
            gmail_from_email: Some(String::from_str("different mail (alias) or remove this part")),
            to_emails,
            data_file: String::from_str("./grades.yaml"),
            sleep_time_secs: DEFAULT_SLEEP_SECS,
            geckodriver_port: DEFAULT_DRIVER_PORT,
        }
    }

    /// The address mail is sent from: the sender address, else the login.
    pub fn from_email(&self) -> (r: &String)
        ensures
            r == (match self.gmail_from_email {
                Some(f) => f,
                None => self.gmail_login_email,
            }),
    {
        match &self.gmail_from_email {
            Some(f) => f,
            None => &self.gmail_login_email,
        }
    }

    /// Checks a configuration as it was read from storage; with none stored, the
    /// default configuration is used as it is. Every address must be well-formed:
    /// the login, the sender when given, and each recipient; the first of these
    /// that fails, in that order, is the error, and the recipient error lists
    /// every invalid recipient in order.
    pub fn load(stored: Option<Config>) -> (r: Result<Config, ConfigError>)
        ensures
            stored is None ==> r is Ok && is_default_config(r->Ok_0),
            stored is Some ==> ({
                let c = stored->Some_0;
                if !mail_address_ok(c.gmail_login_email@) {
                    r == Err::<Config, ConfigError>(ConfigError::InvalidLoginEmail(c.gmail_login_email))
                } else if c.gmail_from_email is Some && !mail_address_ok(
                    c.gmail_from_email->Some_0@,
                ) {
                    r == Err::<Config, ConfigError>(
                        ConfigError::InvalidFromEmail(c.gmail_from_email->Some_0),
                    )
                } else if invalid_addresses(c.to_emails@).len() > 0 {
                    match r {
                        Err(ConfigError::InvalidToEmails(v)) => cells_view(v@) == invalid_addresses(
                            c.to_emails@,
                        ),
                        _ => false,
                    }
                } else {
                    r == Ok::<Config, ConfigError>(c)
                }
            }),
    {
        let c = match stored {
            None => {
                return Ok(Config::default_config());
            },
            Some(c) => c,
        };
        if !parse_address_ok(&c.gmail_login_email) {
            return Err(ConfigError::InvalidLoginEmail(c.gmail_login_email));
        }
        let from_ok = match &c.gmail_from_email {
            Some(f) => parse_address_ok(f),
            None => true,
        };
        if !from_ok {
            return Err(ConfigError::InvalidFromEmail(c.gmail_from_email.unwrap()));
        }
        let wrong = invalid_emails(&c.to_emails);
        if wrong.len() > 0 {
            return Err(ConfigError::InvalidToEmails(wrong));
        }
        Ok(c)
    }
}

/// The addresses of `emails` that are not well-formed, in order.
pub fn invalid_emails(emails: &Vec<String>) -> (r: Vec<String>)
    ensures
        cells_view(r@) == invalid_addresses(emails@),
{
    let ghost ev = cells_view(emails@);
    let ghost pred = |e: Seq<char>| !mail_address_ok(e);
    let mut out: Vec<String> = Vec::new();
    let mut i: usize = 0;
    while i < emails.len()
        invariant
            i <= emails.len(),
            ev == cells_view(emails@),
            pred == (|e: Seq<char>| !mail_address_ok(e)),
            cells_view(out@) == ev.take(i as int).filter(pred),
        decreases emails.len() - i,
    {
        let ghost before = out@;
        proof {
            assert(ev.take(i + 1) =~= ev.take(i as int).push(ev[i as int]));
            ev.take(i as int).lemma_filter_push(ev[i as int], pred);
        }
        if !parse_address_ok(&emails[i]) {
            out.push(emails[i].clone());
            assert(cells_view(out@) =~= cells_view(before).push(ev[i as int]));
        } else {
            assert(cells_view(out@) =~= cells_view(before));
        }
        i = i + 1;
    }
    assert(ev.take(emails.len() as int) =~= ev);
    out
}

} // verus!
