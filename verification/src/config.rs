//! The options of a volume and of a storage, as plain values, and what is
//! decided from them: credentials, database, batching and what happens to
//! the data when the storage is closed.

use crate::batcher::DEFAULT_BATCH_TIMEOUT_MS;
use crate::query::{Query, QueryView};
use crate::text::{push_text, same_text};
use vstd::prelude::*;

verus! {

/// Address of the database server, an option of the volume.
pub const PROP_BACKEND_URL: &'static str = "url";

/// Name of the administrator, an option of the volume.
pub const PROP_BACKEND_USERNAME: &'static str = "username";

/// Password of the administrator, an option of the volume.
pub const PROP_BACKEND_PASSWORD: &'static str = "password";

/// Name of the database, an option of the storage.
pub const PROP_STORAGE_DB: &'static str = "db";

/// Whether a missing database is created, an option of the storage.
pub const PROP_STORAGE_CREATE_DB: &'static str = "create_db";

/// What happens to the data when the storage is closed, an option of the
/// storage.
pub const PROP_STORAGE_ON_CLOSURE: &'static str = "on_closure";

/// Name of the user of the storage.
pub const PROP_STORAGE_USERNAME: &'static str = PROP_BACKEND_USERNAME;

/// Password of the user of the storage.
pub const PROP_STORAGE_PASSWORD: &'static str = PROP_BACKEND_PASSWORD;

/// Number of points in a batch of writes, an option of the storage.
pub const PROP_STORAGE_PUT_BATCH_SIZE: &'static str = "put_batch_size";

/// Time after which a batch of writes is flushed, an option of the storage.
pub const PROP_STORAGE_PUT_BATCH_TIMEOUT_MS: &'static str = "put_batch_timeout_ms";

/// Name of the database that only an administrator can see.
pub const INTERNAL_DB: &'static str = "_internal";

/// What is written before the random part of a generated database name.
pub const DB_NAME_PREFIX: &'static str = "zenoh_db_";

/// The value of an option.
pub enum Setting {
    /// The option is not given.
    Absent,
    /// A text.
    Text { text: String },
    /// A number that is not negative.
    Number { number: u64 },
    /// A truth value.
    Flag { flag: bool },
    /// Anything else.
    Other,
}

/// The mathematical value of a [`Setting`].
pub enum SettingView {
    Absent,
    Text { text: Seq<char> },
    Number { number: u64 },
    Flag { flag: bool },
    Other,
}

impl View for Setting {
    type V = SettingView;

    open spec fn view(&self) -> SettingView {
        match *self {
            Setting::Absent => SettingView::Absent,
            Setting::Text { text } => SettingView::Text { text: text@ },
            Setting::Number { number } => SettingView::Number { number },
            Setting::Flag { flag } => SettingView::Flag { flag },
            Setting::Other => SettingView::Other,
        }
    }
}

/// Why a configuration is refused.
#[derive(Clone, Copy, Debug, PartialEq, Eq, Structural)]
pub enum ConfigError {
    /// The address of the server is missing or is no text.
    UrlNotText,
    /// A name or a password is no text.
    CredentialNotText,
    /// A name is given without a password, or a password without a name.
    CredentialsIncomplete,
    /// The option for the closure is none of its three values.
    OnClosureInvalid,
    /// The name of the database is no text.
    DbInvalid,
    /// The option to create the database is no truth value.
    CreateDbInvalid,
    /// The database does not exist and is not to be created.
    DatabaseMissing,
}

/// Where an option that may be private was found.
pub enum PrivateLookup {
    NotFound,
    Private { value: Setting },
    Public { value: Setting },
    Both { public: Setting, private: Setting },
}

/// What a name or a password is, found where `lookup` says: nothing where
/// it is not given, its text where it is a text, the private one where both
/// are given; refused where it is no text.
pub open spec fn private_conf(lookup: PrivateLookup) -> Result<Option<Seq<char>>, ConfigError> {
    match lookup {
        PrivateLookup::NotFound => Ok(None),
        PrivateLookup::Private { value: Setting::Text { text } } => Ok(Some(text@)),
        PrivateLookup::Public { value: Setting::Text { text } } => Ok(Some(text@)),
        PrivateLookup::Both {
            public: Setting::Text { text: _ },
            private: Setting::Text { text },
        } => Ok(Some(text@)),
        _ => Err(ConfigError::CredentialNotText),
    }
}

/// The view of an optional text, or of the refusal.
pub open spec fn text_result_view(r: Result<Option<String>, ConfigError>) -> Result<
    Option<Seq<char>>,
    ConfigError,
> {
    match r {
        Ok(Some(text)) => Ok(Some(text@)),
        Ok(None) => Ok(None),
        Err(e) => Err(e),
    }
}

/// Reads a name or a password.
pub fn get_private_conf(lookup: PrivateLookup) -> (r: Result<Option<String>, ConfigError>)
    ensures
        text_result_view(r) == private_conf(lookup),
{
    match lookup {
        PrivateLookup::NotFound => Ok(None),
        PrivateLookup::Private { value: Setting::Text { text } } => Ok(Some(text)),
        PrivateLookup::Public { value: Setting::Text { text } } => Ok(Some(text)),
        PrivateLookup::Both {
            public: Setting::Text { text: _ },
            private: Setting::Text { text },
        } => Ok(Some(text)),
        _ => Err(ConfigError::CredentialNotText),
    }
}

/// Whether a public value is shown although a private one is used, and
/// differs from it or not: what the log warns about.
pub fn public_value_is_shadowed(lookup: &PrivateLookup) -> (r: Option<bool>)
    ensures
        r == match *lookup {
            PrivateLookup::Both {
                public: Setting::Text { text: a },
                private: Setting::Text { text: b },
            } => Some(a@ == b@),
            _ => None,
        },
{
    match lookup {
        PrivateLookup::Both { public: Setting::Text { text: a }, private: Setting::Text { text: b } } => {
            Some(same_text(a.as_str(), b.as_str()))
        },
        _ => None,
    }
}

/// Name and password together, or neither.
pub fn pair_credentials(username: Option<String>, password: Option<String>) -> (r: Result<
    Option<(String, String)>,
    ConfigError,
>)
    ensures
        match (username, password) {
            (Some(u), Some(p)) => r == Ok::<Option<(String, String)>, ConfigError>(Some((u, p))),
            (None, None) => r == Ok::<Option<(String, String)>, ConfigError>(None),
            _ => r == Err::<Option<(String, String)>, ConfigError>(
                ConfigError::CredentialsIncomplete,
            ),
        },
{
    match (username, password) {
        (Some(u), Some(p)) => Ok(Some((u, p))),
        (None, None) => Ok(None),
        _ => Err(ConfigError::CredentialsIncomplete),
    }
}

/// The address of the server.
pub fn backend_url(url: Setting) -> (r: Result<String, ConfigError>)
    ensures
        match url {
            Setting::Text { text } => r == Ok::<String, ConfigError>(text),
            _ => r == Err::<String, ConfigError>(ConfigError::UrlNotText),
        },
{
    match url {
        Setting::Text { text } => Ok(text),
        _ => Err(ConfigError::UrlNotText),
    }
}

/// What happens to the data when the storage is closed.
#[derive(Clone, Copy, Debug, PartialEq, Eq, Structural)]
pub enum OnClosure {
    /// The database is removed.
    DropDb,
    /// Every series of the database is removed.
    DropSeries,
    /// The data stays.
    DoNothing,
}

/// The closure that an option asks for: nothing where it is not given, one
/// of the three by its name, and a refusal for anything else.
pub open spec fn on_closure_of(setting: SettingView) -> Result<OnClosure, ConfigError> {
    match setting {
        SettingView::Absent => Ok(OnClosure::DoNothing),
        SettingView::Text { text } => if text == "drop_series"@ {
            Ok(OnClosure::DropSeries)
        } else if text == "drop_db"@ {
            Ok(OnClosure::DropDb)
        } else if text == "do_nothing"@ {
            Ok(OnClosure::DoNothing)
        } else {
            Err(ConfigError::OnClosureInvalid)
        },
        _ => Err(ConfigError::OnClosureInvalid),
    }
}

impl OnClosure {
    /// Reads the option for the closure.
    pub fn try_from(setting: &Setting) -> (r: Result<OnClosure, ConfigError>)
        ensures
            r == on_closure_of(setting@),
    {
        match setting {
            Setting::Absent => Ok(OnClosure::DoNothing),
            Setting::Text { text } => {
                if same_text(text.as_str(), "drop_series") {
                    Ok(OnClosure::DropSeries)
                } else if same_text(text.as_str(), "drop_db") {
                    Ok(OnClosure::DropDb)
                } else if same_text(text.as_str(), "do_nothing") {
                    Ok(OnClosure::DoNothing)
                } else {
                    Err(ConfigError::OnClosureInvalid)
                }
            },
            _ => Err(ConfigError::OnClosureInvalid),
        }
    }

    /// The statement that carries the closure out on the database `db`;
    /// none where the data stays.
    pub fn closure_query(&self, db: &str) -> (q: Option<Query>)
        ensures
            match *self {
                OnClosure::DropDb => q matches Some(q) && q@ == (QueryView::DropDatabase {
                    db: db@,
                }),
                OnClosure::DropSeries => q matches Some(q) && q@ == QueryView::DropAllSeries,
                OnClosure::DoNothing => q is None,
            },
    {
        match self {
            OnClosure::DropDb => Some(Query::DropDatabase { db: db.to_owned() }),
            OnClosure::DropSeries => Some(Query::DropAllSeries),
            OnClosure::DoNothing => None,
        }
    }
}

/// How writes are batched: the number of points in a batch, where batching
/// is asked for, and the time after which a batch is flushed.
pub struct BatchOptions {
    pub batch_size: Option<usize>,
    pub timeout_ms: u64,
}

/// The batching that two options ask for: batches of the given size where
/// a size is given as a number, none otherwise; the given timeout where it
/// is a number, else the default. A size beyond what the machine can count
/// is the largest it can.
pub open spec fn batch_options_of(size: SettingView, timeout: SettingView) -> BatchOptions {
    BatchOptions {
        batch_size: match size {
            SettingView::Number { number } => Some(
                if number <= usize::MAX {
                    number as usize
                } else {
                    usize::MAX
                },
            ),
            _ => None,
        },
        timeout_ms: match timeout {
            SettingView::Number { number } => number,
            _ => DEFAULT_BATCH_TIMEOUT_MS,
        },
    }
}

/// Reads the options for batching.
pub fn batch_options(size: &Setting, timeout: &Setting) -> (r: BatchOptions)
    ensures
        r == batch_options_of(size@, timeout@),
{
    let batch_size = match size {
        Setting::Number { number } => {
            if *number <= usize::MAX as u64 {
                Some(*number as usize)
            } else {
                Some(usize::MAX)
            }
        },
        _ => None,
    };
    let timeout_ms = match timeout {
        Setting::Number { number } => *number,
        _ => DEFAULT_BATCH_TIMEOUT_MS,
    };
    BatchOptions { batch_size, timeout_ms }
}

/// Which database a storage uses.
pub enum DbChoice {
    /// The database with this name, created if it is missing and `create`
    /// is set.
    Named { name: String, create: bool },
    /// A database with a generated name, which is created.
    Generated,
}

/// The mathematical value of a [`DbChoice`].
pub enum DbChoiceView {
    Named { name: Seq<char>, create: bool },
    Generated,
}

/// The database that two options ask for: a generated one where no name is
/// given; the named one, created only where that is asked for; a refusal
/// where the name is no text or the other option no truth value.
pub open spec fn db_choice_of(db: SettingView, create_db: SettingView) -> Result<
    DbChoiceView,
    ConfigError,
> {
    match db {
        SettingView::Absent => Ok(DbChoiceView::Generated),
        SettingView::Text { text } => match create_db {
            SettingView::Absent => Ok(DbChoiceView::Named { name: text, create: false }),
            SettingView::Flag { flag } => Ok(DbChoiceView::Named { name: text, create: flag }),
            _ => Err(ConfigError::CreateDbInvalid),
        },
        _ => Err(ConfigError::DbInvalid),
    }
}

/// The view of a choice of database, or of the refusal.
pub open spec fn db_choice_view(r: Result<DbChoice, ConfigError>) -> Result<
    DbChoiceView,
    ConfigError,
> {
    match r {
        Ok(DbChoice::Named { name, create }) => Ok(DbChoiceView::Named { name: name@, create }),
        Ok(DbChoice::Generated) => Ok(DbChoiceView::Generated),
        Err(e) => Err(e),
    }
}

/// Reads the options for the database.
pub fn db_choice(db: Setting, create_db: &Setting) -> (r: Result<DbChoice, ConfigError>)
    ensures
        db_choice_view(r) == db_choice_of(db@, create_db@),
{
    match db {
        Setting::Absent => Ok(DbChoice::Generated),
        Setting::Text { text } => match create_db {
            Setting::Absent => Ok(DbChoice::Named { name: text, create: false }),
            Setting::Flag { flag } => Ok(DbChoice::Named { name: text, create: *flag }),
            _ => Err(ConfigError::CreateDbInvalid),
        },
        _ => Err(ConfigError::DbInvalid),
    }
}

/// Whether a character is a digit or one of the letters `a` to `f`.
pub open spec fn is_lower_hex(c: char) -> bool {
    ('0' <= c && c <= '9') || ('a' <= c && c <= 'f')
}

/// Calls `uuid::Uuid::new_v4` and writes the identifier in its simple
/// format: thirty-two hexadecimal digits in lower case, without hyphens.
/// Which digits is left to chance.
#[verifier::external_body]
fn random_suffix() -> (text: String)
    ensures
        text@.len() == 32,
        forall|i: int| 0 <= i < 32 ==> is_lower_hex(#[trigger] text@[i]),
{
    uuid::Uuid::new_v4().simple().to_string()
}

/// A name for a new database: the prefix and thirty-two hexadecimal digits
/// chosen at random.
pub fn generate_db_name() -> (name: String)
    ensures
        name@.len() == DB_NAME_PREFIX@.len() + 32,
        name@.subrange(0, DB_NAME_PREFIX@.len() as int) == DB_NAME_PREFIX@,
        forall|i: int|
            DB_NAME_PREFIX@.len() <= i < name@.len() ==> is_lower_hex(#[trigger] name@[i]),
{
    let mut name = String::new();
    push_text(&mut name, DB_NAME_PREFIX);
    let suffix = random_suffix();
    push_text(&mut name, suffix.as_str());
    proof {
        let n = DB_NAME_PREFIX@.len() as int;
        assert(name@.subrange(0, n) =~= DB_NAME_PREFIX@);
        assert forall|i: int| n <= i < name@.len() implies is_lower_hex(#[trigger] name@[i]) by {
            assert(name@[i] == suffix@[i - n]);
        }
    }
    name
}

/// The views of some names.
pub open spec fn names_view(names: Seq<String>) -> Seq<Seq<char>> {
    Seq::new(names.len(), |i: int| names[i]@)
}

/// Whether the database `db_name` is among those that the server listed.
pub fn is_db_existing(dbs: &Vec<String>, db_name: &str) -> (r: bool)
    ensures
        r == names_view(dbs@).contains(db_name@),
{
    let ghost names = names_view(dbs@);
    let mut i: usize = 0;
    while i < dbs.len()
        invariant
            i <= dbs.len(),
            names == names_view(dbs@),
            forall|j: int| 0 <= j < i ==> names[j] != db_name@,
        decreases dbs.len() - i,
    {
        if same_text(dbs[i].as_str(), db_name) {
            assert(names[i as int] == db_name@);
            return true;
        }
        i += 1;
    }
    false
}

/// Whether the list of databases was made for an administrator: only an
/// administrator is shown the internal database.
pub fn is_admin(dbs: &Vec<String>) -> (r: bool)
    ensures
        r == names_view(dbs@).contains(INTERNAL_DB@),
{
    is_db_existing(dbs, INTERNAL_DB)
}

/// What is done about the database of a new storage.
pub enum DbSetup {
    /// The database exists: nothing to do.
    Ready,
    /// The database is to be created.
    Create,
}

/// Decides what is done about the database of a new storage: nothing where
/// it exists, its creation where that is allowed, and a refusal otherwise.
pub fn db_setup(exists: bool, create: bool) -> (r: Result<DbSetup, ConfigError>)
    ensures
        exists ==> r matches Ok(DbSetup::Ready),
        !exists && create ==> r matches Ok(DbSetup::Create),
        !exists && !create ==> r == Err::<DbSetup, ConfigError>(ConfigError::DatabaseMissing),
{
    if exists {
        Ok(DbSetup::Ready)
    } else if create {
        Ok(DbSetup::Create)
    } else {
        Err(ConfigError::DatabaseMissing)
    }
}

/// The statements that create the database `db_name`: its creation and,
/// where the storage has a user, the grant of every right on it to that
/// user.
pub fn create_db(db_name: &str, storage_username: &Option<String>) -> (queries: Vec<Query>)
    ensures
        queries@.len() == if storage_username is Some {
            2int
        } else {
            1int
        },
        queries@[0]@ == (QueryView::CreateDatabase { db: db_name@ }),
        storage_username matches Some(user) ==> queries@[1]@ == (QueryView::GrantAll {
            db: db_name@,
            user: user@,
        }),
{
    let mut queries: Vec<Query> = Vec::new();
    queries.push(Query::CreateDatabase { db: db_name.to_owned() });
    match storage_username {
        Some(user) => {
            queries.push(Query::GrantAll { db: db_name.to_owned(), user: user.clone() });
        },
        None => {},
    }
    queries
}

/// The statement that lists the databases.
pub fn show_databases() -> (q: Query)
    ensures
        q@ == QueryView::ShowDatabases,
{
    Query::ShowDatabases
}

} // verus!
