//! Client credentials: where they come from and their TOML form.
use vstd::prelude::*;

verus! {

#[verifier::external_type_specification]
#[verifier::external_body]
#[verifier::reject_recursive_types(K)]
#[verifier::reject_recursive_types(V)]
pub struct ExTomlMap<K, V>(toml::map::Map<K, V>);

#[verifier::external_type_specification]
#[verifier::external_body]
pub struct ExTomlValue(toml::Value);

#[verifier::external_type_specification]
#[verifier::external_body]
pub struct ExTomlDeError(toml::de::Error);

#[verifier::external_type_specification]
#[verifier::external_body]
pub struct ExTomlSerError(toml::ser::Error);

/// The keys of a TOML table.
pub uninterp spec fn table_keys(t: toml::Table) -> Set<Seq<char>>;

/// The entries of a TOML table whose values are strings, with those strings.
pub uninterp spec fn table_strings(t: toml::Table) -> Map<Seq<char>, Seq<char>>;

/// The TOML document that `toml::to_string` writes for a table whose entries
/// are exactly these strings.
pub uninterp spec fn toml_text(entries: Map<Seq<char>, Seq<char>>) -> Seq<char>;

/// Relies on `toml::map::Map::new`: a new table is empty.
#[verifier::external_body]
fn table_new() -> (r: toml::Table)
    ensures
        table_keys(r).is_empty(),
        table_strings(r).dom().is_empty(),
{
    toml::Table::new()
}

/// Relies on `toml::map::Map::insert`: the key now maps to the string value,
/// replacing what it held before.
#[verifier::external_body]
fn table_insert_str(t: &mut toml::Table, key: String, value: String)
    ensures
        table_keys(*final(t)) == table_keys(*old(t)).insert(key@),
        table_strings(*final(t)) == table_strings(*old(t)).insert(key@, value@),
{
    t.insert(key, toml::Value::String(value));
}

/// Relies on `toml::map::Map::get`: `None` for a missing key, else the value,
/// told apart by whether it is a string.
#[verifier::external_body]
fn table_get_str(t: &toml::Table, key: &str) -> (r: Option<Option<String>>)
    ensures
        r is None <==> !table_keys(*t).contains(key@),
        r is None ==> !table_strings(*t).contains_key(key@),
        r matches Some(None) ==> !table_strings(*t).contains_key(key@),
        r matches Some(Some(s)) ==> table_strings(*t).contains_key(key@) && table_strings(
            *t,
        )[key@] == s@,
{
    match t.get(key) {
        None => None,
        Some(toml::Value::String(s)) => Some(Some(s.clone())),
        Some(_) => Some(None),
    }
}

/// Whether a text is a TOML document.
pub uninterp spec fn toml_parses(text: Seq<char>) -> bool;

/// The keys of the table that a TOML document holds.
pub uninterp spec fn parsed_keys(text: Seq<char>) -> Set<Seq<char>>;

/// The string-valued entries of the table that a TOML document holds.
pub uninterp spec fn parsed_strings(text: Seq<char>) -> Map<Seq<char>, Seq<char>>;

/// Relies on `toml::from_str` for a table: parses a TOML document; whether it
/// succeeds and the table it gives depend on the text alone.
#[verifier::external_body]
fn parse_table(text: &str) -> (r: Result<toml::Table, toml::de::Error>)
    ensures
        r is Ok <==> toml_parses(text@),
        r matches Ok(t) ==> table_keys(t) == parsed_keys(text@) && table_strings(t)
            == parsed_strings(text@),
{
    toml::from_str::<toml::Table>(text)
}

/// Relies on `toml::to_string`: writes a table as a TOML document, which
/// depends on the table's entries alone and, for a table of strings, always
/// succeeds.
#[verifier::external_body]
fn table_to_string(t: &toml::Table) -> (r: Result<String, toml::ser::Error>)
    requires
        table_keys(*t) == table_strings(*t).dom(),
    ensures
        r is Ok,
        r matches Ok(s) ==> s@ == toml_text(table_strings(*t)),
{
    toml::to_string(t)
}

/// What went wrong with a credential configuration.
#[derive(Debug)]
pub enum ConfigError {
    /// The credential file is not a TOML document.
    Syntax(toml::de::Error),
    /// A recognized key holds something other than a string.
    NotAString(String),
    /// The credentials could not be written as TOML.
    Unwritable(toml::ser::Error),
    /// An authenticated call was made without a client identifier.
    MissingClientId,
    /// An authenticated call was made without a token.
    MissingToken,
}

/// Where credentials are loaded from. The caller reads the file or the
/// environment and hands over what it found.
pub enum CredentialSource {
    /// The text of a credential file.
    File(String),
    /// The values of `TWITCH_CLIENT_ID` and `TWITCH_OAUTH_TOKEN`, `None` where
    /// a variable is unset.
    Environment { client_id: Option<String>, token: Option<String> },
}

/// A client identifier and a bearer token, each possibly absent.
#[derive(Debug, Clone, PartialEq, Eq)]
pub struct Credentials {
    pub client_id: Option<String>,
    pub token: Option<String>,
}

/// The view of an optional string.
pub open spec fn opt_view(o: Option<String>) -> Option<Seq<char>> {
    match o {
        Some(s) => Some(s@),
        None => None,
    }
}

/// The key of the client identifier in a credential file.
pub open spec fn client_id_key() -> Seq<char> {
    "client_id"@
}

/// The key of the token in a credential file.
pub open spec fn token_key() -> Seq<char> {
    "token"@
}

/// Adds `key => value` to `m` where a value is present.
pub open spec fn with_entry(m: Map<Seq<char>, Seq<char>>, key: Seq<char>, value: Option<String>) -> Map<
    Seq<char>,
    Seq<char>,
> {
    match value {
        Some(v) => m.insert(key, v@),
        None => m,
    }
}

/// What a credential entry reads as in a table: absent, a string, or
/// something else (`None`).
pub open spec fn table_entry(t: toml::Table, key: Seq<char>) -> Option<Option<Seq<char>>> {
    if !table_keys(t).contains(key) {
        Some(None)
    } else if table_strings(t).contains_key(key) {
        Some(Some(table_strings(t)[key]))
    } else {
        None
    }
}

impl Credentials {
    /// The entries of the credential file, one for each present field.
    pub open spec fn entries(&self) -> Map<Seq<char>, Seq<char>> {
        with_entry(with_entry(Map::empty(), client_id_key(), self.client_id), token_key(), self.token)
    }

    /// Whether `self` holds exactly what the table `t` records.
    pub open spec fn read_from(&self, t: toml::Table) -> bool {
        table_entry(t, client_id_key()) == Some(opt_view(self.client_id))
            && table_entry(t, token_key()) == Some(opt_view(self.token))
    }
}

/// What a credential entry reads as in a TOML document: absent, a string, or
/// something else (`None`).
pub open spec fn file_entry(text: Seq<char>, key: Seq<char>) -> Option<Option<Seq<char>>> {
    if !parsed_keys(text).contains(key) {
        Some(None)
    } else if parsed_strings(text).contains_key(key) {
        Some(Some(parsed_strings(text)[key]))
    } else {
        None
    }
}

/// The string held, or the empty string where there is none.
pub open spec fn or_empty(o: Option<String>) -> Seq<char> {
    match o {
        Some(s) => s@,
        None => Seq::empty(),
    }
}

/// The string held, or a new empty string.
fn value_or_empty(o: Option<String>) -> (r: String)
    ensures
        r@ == or_empty(o),
{
    match o {
        Some(s) => s,
        None => String::new(),
    }
}

/// Reads one credential entry: absent, a string, or an error naming the key.
fn read_entry(t: &toml::Table, key: &str) -> (r: Result<Option<String>, ConfigError>)
    ensures
        table_entry(*t, key@) is None <==> r is Err,
        r matches Ok(v) ==> table_entry(*t, key@) == Some(opt_view(v)),
        r matches Err(e) ==> e matches ConfigError::NotAString(k) && k@ == key@,
{
    match table_get_str(t, key) {
        None => Ok(None),
        Some(Some(v)) => Ok(Some(v)),
        Some(None) => Err(ConfigError::NotAString(String::from_str(key))),
    }
}

impl Credentials {
    /// Loads credentials from `source`.
    ///
    /// From the environment a missing variable reads as an empty string. From
    /// a file the text must be a TOML document whose `client_id` and `token`
    /// entries, where present, are strings; other keys are ignored.
    pub fn new(source: CredentialSource) -> (r: Result<Credentials, ConfigError>)
        ensures
            source matches CredentialSource::Environment { client_id, token } ==> r matches Ok(c)
                && opt_view(c.client_id) == Some(or_empty(client_id)) && opt_view(c.token) == Some(
                or_empty(token),
            ),
            source matches CredentialSource::File(text) ==> (r is Ok <==> toml_parses(text@)
                && file_entry(text@, client_id_key()) is Some && file_entry(text@, token_key()) is Some),
            source matches CredentialSource::File(text) ==> (r matches Ok(c) ==> file_entry(
                text@,
                client_id_key(),
            ) == Some(opt_view(c.client_id)) && file_entry(text@, token_key()) == Some(
                opt_view(c.token),
            )),
            source matches CredentialSource::File(text) ==> ((r matches Err(ConfigError::Syntax(_)))
                <==> !toml_parses(text@)),
            r matches Err(e) ==> source is File && (e is Syntax || e is NotAString),
    {
        match source {
            CredentialSource::File(text) => match parse_table(text.as_str()) {
                Ok(t) => Credentials::from_table(&t),
                Err(e) => Err(ConfigError::Syntax(e)),
            },
            CredentialSource::Environment { client_id, token } => Ok(
                Credentials {
                    client_id: Some(value_or_empty(client_id)),
                    token: Some(value_or_empty(token)),
                },
            ),
        }
    }

    /// Reads credentials from a parsed credential file.
    pub fn from_table(t: &toml::Table) -> (r: Result<Credentials, ConfigError>)
        ensures
            r is Ok <==> (table_entry(*t, client_id_key()) is Some && table_entry(
                *t,
                token_key(),
            ) is Some),
            r matches Ok(c) ==> c.read_from(*t),
            r matches Err(e) ==> e matches ConfigError::NotAString(k) && (if table_entry(
                *t,
                client_id_key(),
            ) is None {
                k@ == client_id_key()
            } else {
                k@ == token_key()
            }),
    {
        let client_id = match read_entry(t, "client_id") {
            Ok(v) => v,
            Err(e) => return Err(e),
        };
        let token = match read_entry(t, "token") {
            Ok(v) => v,
            Err(e) => return Err(e),
        };
        Ok(Credentials { client_id, token })
    }

    /// The credential file's table: one string entry for each present field.
    pub fn to_table(&self) -> (r: toml::Table)
        ensures
            table_keys(r) == self.entries().dom(),
            table_strings(r) == self.entries(),
    {
        let mut t = table_new();
        assert(table_strings(t) =~= Map::<Seq<char>, Seq<char>>::empty());
        if let Some(id) = &self.client_id {
            table_insert_str(&mut t, String::from_str("client_id"), id.clone());
        }
        assert(table_keys(t) =~= with_entry(Map::empty(), client_id_key(), self.client_id).dom());
        if let Some(token) = &self.token {
            table_insert_str(&mut t, String::from_str("token"), token.clone());
        }
        assert(table_keys(t) =~= self.entries().dom());
        t
    }

    /// The text of the credential file for these credentials; the caller
    /// writes it where it belongs.
    pub fn save(&self) -> (r: Result<String, ConfigError>)
        ensures
            r is Ok,
            r matches Ok(s) ==> s@ == toml_text(self.entries()),
    {
        let t = self.to_table();
        match table_to_string(&t) {
            Ok(s) => Ok(s),
            Err(e) => Err(ConfigError::Unwritable(e)),
        }
    }

    /// Replaces the token, keeping the client identifier.
    pub fn set_token(&mut self, token: &str)
        ensures
            final(self).client_id == old(self).client_id,
            opt_view(final(self).token) == Some(token@),
    {
        self.token = Some(String::from_str(token));
    }
}

/// Reading back the table that credentials are written as gives the same
/// credentials: a table with exactly the entries of `c` reads as `c`.
pub proof fn lemma_table_round_trip(c: Credentials, t: toml::Table)
    requires
        table_keys(t) == c.entries().dom(),
        table_strings(t) == c.entries(),
    ensures
        c.read_from(t),
{
    reveal_strlit("client_id");
    reveal_strlit("token");
    assert(client_id_key().len() != token_key().len());
}

} // verus!
