//! The alias table: which name this machine uses for a host that reports
//! itself under another.

use crate::request::{CodeOpenInfo, OpenInfoView};
use vstd::hash_map::StringHashMap;
use vstd::prelude::*;

verus! {

/// From the name a host reports to the name that is configured here for it.
pub struct AliasTable {
    entries: StringHashMap<String>,
}

impl View for AliasTable {
    type V = Map<Seq<char>, Seq<char>>;

    closed spec fn view(&self) -> Map<Seq<char>, Seq<char>> {
        self.entries@.map_values(|name: String| name@)
    }
}

impl AliasTable {
    /// A table without entries.
    pub fn new() -> (table: Self)
        ensures
            table@ == Map::<Seq<char>, Seq<char>>::empty(),
    {
        let table = AliasTable { entries: StringHashMap::new() };
        assert(table@ =~= Map::<Seq<char>, Seq<char>>::empty());
        table
    }

    /// Sets the local name of `origin_host`, in place of an earlier one if
    /// there was one.
    pub fn insert(&mut self, origin_host: String, local_name: String)
        ensures
            final(self)@ == old(self)@.insert(origin_host@, local_name@),
    {
        self.entries.insert(origin_host, local_name);
        assert(self@ =~= old(self)@.insert(origin_host@, local_name@));
    }

    /// The local name of `origin_host`, if it has one.
    pub fn get(&self, origin_host: &str) -> (local_name: Option<&String>)
        ensures
            match local_name {
                Some(name) => self@.contains_key(origin_host@) && name@ == self@[origin_host@],
                None => !self@.contains_key(origin_host@),
            },
    {
        self.entries.get(origin_host)
    }

    /// Number of hosts that have a local name.
    pub fn len(&self) -> (len: usize)
        ensures
            len == self@.len(),
    {
        assert(self@.dom() =~= self.entries@.dom());
        self.entries.len()
    }

    /// Whether no host has a local name.
    pub fn is_empty(&self) -> (empty: bool)
        ensures
            empty == (self@.len() == 0),
    {
        self.len() == 0
    }

    /// The table that holds the given entries. Where a host occurs more than
    /// once, its last entry counts.
    pub fn from_pairs(pairs: &Vec<(String, String)>) -> (table: Self)
        ensures
            table@ == table_of(pairs@),
    {
        let mut table = AliasTable::new();
        let mut done: usize = 0;
        while done < pairs.len()
            invariant
                done <= pairs.len(),
                table@ == table_of(pairs@.take(done as int)),
            decreases pairs.len() - done,
        {
            let origin_host = pairs[done].0.clone();
            let local_name = pairs[done].1.clone();
            table.insert(origin_host, local_name);
            proof {
                let upto = pairs@.take(done + 1);
                assert(upto.drop_last() =~= pairs@.take(done as int));
                assert(upto.last() == pairs@[done as int]);
            }
            done += 1;
        }
        assert(pairs@.take(pairs.len() as int) =~= pairs@);
        table
    }
}

/// The table that a list of entries stands for: the entries are entered in
/// order, a later one in place of an earlier one for the same host.
pub open spec fn table_of(pairs: Seq<(String, String)>) -> Map<Seq<char>, Seq<char>>
    decreases pairs.len(),
{
    if pairs.len() == 0 {
        Map::empty()
    } else {
        table_of(pairs.drop_last()).insert(pairs.last().0@, pairs.last().1@)
    }
}

/// The info as this machine addresses it: the host's local name in place of
/// the reported one where the table has one, and the info as it is where
/// the table has none. The path is never touched.
pub open spec fn resolved(info: OpenInfoView, table: Map<Seq<char>, Seq<char>>) -> OpenInfoView {
    if table.contains_key(info.origin_host) {
        OpenInfoView { origin_host: table[info.origin_host], remote_dir_path: info.remote_dir_path }
    } else {
        info
    }
}

/// Looks the reported host name up, once and by the whole name, and gives
/// the info with the local name in its place. The table is only read.
pub fn resolve_host_name_to_local_configured_name(
    code_open_info: CodeOpenInfo,
    table: &AliasTable,
) -> (resolved_info: CodeOpenInfo)
    ensures
        resolved_info@ == resolved(code_open_info@, table@),
        !table@.contains_key(code_open_info@.origin_host) ==> resolved_info == code_open_info,
        resolved_info.remote_dir_full_path == code_open_info.remote_dir_full_path,
{
    match table.get(code_open_info.remote_host_name.as_str()) {
        Some(local_name) => CodeOpenInfo::new(
            local_name.clone(),
            code_open_info.remote_dir_full_path,
        ),
        None => code_open_info,
    }
}

} // verus!
