//! The stored form of the alias table: a JSON object whose members are the
//! reported host names, each with its local name as a string.

use crate::alias::{table_of, AliasTable};
use crate::error::ConfigError;
use vstd::prelude::*;
use vstd::string::*;

verus! {

/// Name of the directory that holds the server's files.
pub const THIS_APP_NAME: &'static str = "code-open-server";

/// Name of the file that holds the alias table.
pub const TABLE_FILE_NAME: &'static str = "table.json";

/// The server's directory below the user's configuration directory.
pub open spec fn config_base_path_of(user_config_dir: Seq<char>, separator: Seq<char>) -> Seq<
    char,
> {
    user_config_dir + separator + THIS_APP_NAME@
}

/// The table file in the server's directory.
pub open spec fn table_file_path_of(user_config_dir: Seq<char>, separator: Seq<char>) -> Seq<
    char,
> {
    config_base_path_of(user_config_dir, separator) + separator + TABLE_FILE_NAME@
}

/// Where the server keeps its files. It is made once, at the start, from the
/// user's configuration directory, and handed to whoever loads or stores
/// the table.
#[derive(Debug)]
pub struct ConfigPaths {
    config_base_path: String,
    table_file_path: String,
}

impl ConfigPaths {
    /// The server's directory.
    pub closed spec fn base(&self) -> Seq<char> {
        self.config_base_path@
    }

    /// The table file.
    pub closed spec fn table_file(&self) -> Seq<char> {
        self.table_file_path@
    }

    /// The paths below `user_config_dir`, joined with the platform's
    /// `separator`.
    pub fn new(user_config_dir: &str, separator: &str) -> (paths: Self)
        ensures
            paths.base() == config_base_path_of(user_config_dir@, separator@),
            paths.table_file() == table_file_path_of(user_config_dir@, separator@),
    {
        let config_base_path = String::from_str(user_config_dir).concat(separator).concat(
            THIS_APP_NAME,
        );
        let table_file_path = config_base_path.clone().concat(separator).concat(TABLE_FILE_NAME);
        ConfigPaths { config_base_path, table_file_path }
    }

    /// The server's directory.
    pub fn config_base_path(&self) -> (path: &str)
        ensures
            path@ == self.base(),
    {
        self.config_base_path.as_str()
    }

    /// The table file.
    pub fn get_table_file_path(&self) -> (path: String)
        ensures
            path@ == self.table_file(),
    {
        self.table_file_path.clone()
    }
}

/// The table that a JSON text holds, if it holds one: what
/// `serde_json::from_str` makes of the text when asked for a map from
/// strings to strings.
pub uninterp spec fn json_string_map(text: Seq<char>) -> Option<Map<Seq<char>, Seq<char>>>;

/// `serde_json::from_str` at `HashMap<String, String>`: the members of the
/// object that `text` holds, in no particular order, or nothing where the
/// text is not such an object. The map's keys are distinct, so the entries
/// stand for the same table in whatever order they come.
#[verifier::external_body]
fn parse_json_string_map(text: &str) -> (entries: Option<Vec<(String, String)>>)
    ensures
        json_string_map(text@) == match entries {
            Some(pairs) => Some(table_of(pairs@)),
            None => None::<Map<Seq<char>, Seq<char>>>,
        },
{
    match serde_json::from_str::<std::collections::HashMap<String, String>>(text) {
        Ok(map) => Some(map.into_iter().collect()),
        Err(_) => None,
    }
}

/// `serde_json::to_string` on a `HashMap<String, String>` without entries:
/// where it gives a text, the text is an opening and a closing brace.
#[verifier::external_body]
fn empty_table_json() -> (text: Option<String>)
    ensures
        text is Some ==> text->0@ == "{}"@,
{
    serde_json::to_string(&std::collections::HashMap::<String, String>::new()).ok()
}

/// The table a server starts with, and the text that has to be stored
/// first where the table was not found in store.
pub struct LoadedTable {
    pub table: AliasTable,
    /// The entries that the table was made of, for whoever wants to list
    /// them.
    pub entries: Vec<(String, String)>,
    /// Text of a table file that is to be written before the server goes on.
    pub to_store: Option<String>,
}

/// The table a server starts with, from what was found in store and from
/// the text of an empty table.
///
/// Entries that were found give their table, and nothing is to be stored.
/// Without them the server starts with an empty table, and `empty_text` is
/// to be stored; without that text too there is nothing to start with.
pub fn start_table(parsed: Option<Vec<(String, String)>>, empty_text: Option<String>) -> (result:
    Result<LoadedTable, ConfigError>)
    ensures
        match (parsed, empty_text) {
            (Some(pairs), _) => result is Ok && result->Ok_0.table@ == table_of(pairs@)
                && result->Ok_0.entries == pairs && result->Ok_0.to_store is None,
            (None, Some(text)) => result is Ok && result->Ok_0.table@ == Map::<
                Seq<char>,
                Seq<char>,
            >::empty() && result->Ok_0.entries@.len() == 0 && result->Ok_0.to_store == Some(text),
            (None, None) => result == Err::<LoadedTable, ConfigError>(ConfigError::TableUnwritable),
        },
{
    match parsed {
        Some(pairs) => Ok(
            LoadedTable { table: AliasTable::from_pairs(&pairs), entries: pairs, to_store: None },
        ),
        None => match empty_text {
            Some(text) => Ok(
                LoadedTable { table: AliasTable::new(), entries: Vec::new(), to_store: Some(text) },
            ),
            None => Err(ConfigError::TableUnwritable),
        },
    }
}

/// What the stored text, if there is one, holds as a table.
pub open spec fn stored_table(stored: Option<&str>) -> Option<Map<Seq<char>, Seq<char>>> {
    match stored {
        Some(text) => json_string_map(text@),
        None => None,
    }
}

/// The table a server starts with. `stored` is the text of the table file,
/// or nothing where there is no such file.
///
/// A text that holds a table gives that table, and nothing is to be stored.
/// Otherwise the server starts with an empty table and the text of an empty
/// table is to be stored; the one way for this to fail is that no such text
/// could be made.
pub fn load_local_configured_name_table(stored: Option<&str>) -> (result: Result<
    LoadedTable,
    ConfigError,
>)
    ensures
        match stored_table(stored) {
            Some(table) => result is Ok && result->Ok_0.table@ == table && table_of(
                result->Ok_0.entries@,
            ) == table && result->Ok_0.to_store is None,
            None => match result {
                Ok(loaded) => loaded.table@ == Map::<Seq<char>, Seq<char>>::empty()
                    && loaded.entries@.len() == 0 && loaded.to_store is Some
                    && loaded.to_store->0@ == "{}"@,
                Err(e) => e == ConfigError::TableUnwritable,
            },
        },
{
    let parsed = match stored {
        Some(text) => parse_json_string_map(text),
        None => None,
    };
    let empty_text = match parsed {
        Some(_) => None,
        None => empty_table_json(),
    };
    start_table(parsed, empty_text)
}

} // verus!
