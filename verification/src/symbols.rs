//! The table of entry points: the names that a module can be invoked by.
use vstd::prelude::*;
use vstd::string::StrSliceExecFns;
use crate::error::LoadError;
use crate::object::{view_symbols, Symbol, SymbolView, STV_DEFAULT};

verus! {

/// Whether `name` starts with the two underscores that mark an internal
/// label.
pub open spec fn is_reserved(name: Seq<char>) -> bool {
    name.len() >= 2 && name[0] == '_' && name[1] == '_'
}

/// Whether the symbol is visible to other modules, has a place in the
/// string table, and is defined in the section with index `text_index`.
pub open spec fn is_candidate(symbol: SymbolView, text_index: int) -> bool {
    &&& symbol.entry.st_vis == STV_DEFAULT
    &&& symbol.entry.st_name != 0
    &&& symbol.entry.st_shndx == text_index
}

/// Whether the symbol is an entry point called `name`: a candidate whose
/// name is `name`, which is neither empty nor reserved.
pub open spec fn exports(symbol: SymbolView, text_index: int, name: Seq<char>) -> bool {
    &&& is_candidate(symbol, text_index)
    &&& symbol.name == Some(name)
    &&& name.len() > 0
    &&& !is_reserved(name)
}

/// Whether some candidate among the symbols has no name that the string
/// table yields.
pub open spec fn nameless_candidate(symbols: Seq<SymbolView>, text_index: int) -> bool {
    exists|i: int|
        0 <= i < symbols.len() && is_candidate(#[trigger] symbols[i], text_index)
            && symbols[i].name is None
}

/// The entry points among `symbols`, each name with the offset of its
/// symbol in the code section. Where several entry points share a name, the
/// first one in the table stands.
pub open spec fn entry_points(symbols: Seq<SymbolView>, text_index: int) -> Map<Seq<char>, u64>
    decreases symbols.len(),
{
    if symbols.len() == 0 {
        Map::empty()
    } else {
        let earlier = entry_points(symbols.drop_last(), text_index);
        let symbol = symbols.last();
        match symbol.name {
            Some(name) if exports(symbol, text_index, name) && !earlier.contains_key(name) => {
                earlier.insert(name, symbol.entry.st_value)
            },
            _ => earlier,
        }
    }
}

/// A name is an entry point exactly if some symbol exports it, and its
/// offset is that of the first symbol that does. So a name that is empty or
/// reserved, and a name that only symbols of other visibility or of other
/// sections carry, is no entry point.
pub proof fn lemma_entry_points(symbols: Seq<SymbolView>, text_index: int, name: Seq<char>)
    ensures
        entry_points(symbols, text_index).contains_key(name) <==> exists|i: int|
            0 <= i < symbols.len() && exports(#[trigger] symbols[i], text_index, name),
        forall|i: int|
            0 <= i < symbols.len() && exports(#[trigger] symbols[i], text_index, name) && (forall|
                j: int,
            |
                0 <= j < i ==> !exports(#[trigger] symbols[j], text_index, name)) ==> entry_points(
                symbols,
                text_index,
            )[name] == symbols[i].entry.st_value,
    decreases symbols.len(),
{
    if symbols.len() > 0 {
        let earlier = symbols.drop_last();
        lemma_entry_points(earlier, text_index, name);
        assert(forall|i: int| 0 <= i < earlier.len() ==> earlier[i] == symbols[i]);
    }
}

/// The table of the entry points of a module: a map from names to offsets
/// in the code section. A name enters the table once; its first offset
/// stays. The entries are kept in a list in which no name occurs twice.
#[derive(Debug)]
pub struct FunctionTable {
    entries: Vec<(String, u64)>,
}

/// The map that a list of entries stands for: the first entry of a name
/// counts.
spec fn map_of(entries: Seq<(String, u64)>) -> Map<Seq<char>, u64>
    decreases entries.len(),
{
    if entries.len() == 0 {
        Map::empty()
    } else {
        let earlier = map_of(entries.drop_last());
        let entry = entries.last();
        if earlier.contains_key(entry.0@) {
            earlier
        } else {
            earlier.insert(entry.0@, entry.1)
        }
    }
}

/// A name that no entry carries is not in the map.
proof fn lemma_map_of_absent(entries: Seq<(String, u64)>, name: Seq<char>)
    requires
        forall|j: int| 0 <= j < entries.len() ==> (#[trigger] entries[j]).0@ != name,
    ensures
        !map_of(entries).contains_key(name),
    decreases entries.len(),
{
    if entries.len() > 0 {
        let earlier = entries.drop_last();
        lemma_map_of_absent(earlier, name);
    }
}

/// A name maps to the offset of the first entry that carries it.
proof fn lemma_map_of_first(entries: Seq<(String, u64)>, name: Seq<char>, i: int)
    requires
        0 <= i < entries.len(),
        entries[i].0@ == name,
        forall|j: int| 0 <= j < i ==> (#[trigger] entries[j]).0@ != name,
    ensures
        map_of(entries).contains_key(name),
        map_of(entries)[name] == entries[i].1,
    decreases entries.len(),
{
    let earlier = entries.drop_last();
    if i < earlier.len() {
        lemma_map_of_first(earlier, name, i);
    } else {
        lemma_map_of_absent(earlier, name);
    }
}

/// The name of every entry is in the map.
proof fn lemma_map_of_present(entries: Seq<(String, u64)>, i: int)
    requires
        0 <= i < entries.len(),
    ensures
        map_of(entries).contains_key(entries[i].0@),
    decreases entries.len(),
{
    if i < entries.len() - 1 {
        lemma_map_of_present(entries.drop_last(), i);
    }
}

impl View for FunctionTable {
    type V = Map<Seq<char>, u64>;

    closed spec fn view(&self) -> Map<Seq<char>, u64> {
        map_of(self.entries@)
    }
}

impl FunctionTable {
    /// No two entries of a table have the same name.
    #[verifier::type_invariant]
    spec fn unique_names(&self) -> bool {
        forall|i: int, j: int|
            0 <= i < j < self.entries@.len() ==> (#[trigger] self.entries@[i]).0@
                != (#[trigger] self.entries@[j]).0@
    }

    /// The table without entries.
    pub fn new() -> (table: FunctionTable)
        ensures
            table@ == Map::<Seq<char>, u64>::empty(),
    {
        FunctionTable { entries: Vec::new() }
    }

    /// The offset of the entry point called `name`, if there is one.
    pub fn get(&self, name: &str) -> (offset: Option<u64>)
        ensures
            offset == if self@.contains_key(name@) {
                Some(self@[name@])
            } else {
                None
            },
    {
        let wanted = name.to_owned();
        let mut i: usize = 0;
        while i < self.entries.len()
            invariant
                wanted@ == name@,
                i <= self.entries@.len(),
                forall|j: int| 0 <= j < i ==> (#[trigger] self.entries@[j]).0@ != name@,
            decreases self.entries@.len() - i,
        {
            if self.entries[i].0 == wanted {
                proof {
                    lemma_map_of_first(self.entries@, name@, i as int);
                }
                return Some(self.entries[i].1);
            }
            i = i + 1;
        }
        proof {
            lemma_map_of_absent(self.entries@, name@);
        }
        None
    }

    /// Enters `name` with `offset`, unless the table has the name already.
    pub fn insert(&mut self, name: String, offset: u64)
        ensures
            final(self)@ == if old(self)@.contains_key(name@) {
                old(self)@
            } else {
                old(self)@.insert(name@, offset)
            },
    {
        if self.get(name.as_str()).is_none() {
            let ghost before = self.entries@;
            proof {
                use_type_invariant(&*self);
                assert forall|i: int| 0 <= i < before.len() implies (#[trigger] before[i]).0@
                    != name@ by {
                    lemma_map_of_present(before, i);
                }
            }
            // The list leaves the table while it grows: a table never holds
            // a list in the making.
            let mut table = FunctionTable::new();
            std::mem::swap(self, &mut table);
            let mut entries = table.entries;
            entries.push((name, offset));
            assert(entries@.drop_last() =~= before);
            *self = FunctionTable { entries };
        }
    }

    /// Builds the table of the entry points among `symbols`, where
    /// `text_index` is the index of the code section. A candidate whose
    /// name the string table does not yield is refused.
    pub fn build(symbols: &Vec<Symbol>, text_index: usize) -> (r: Result<FunctionTable, LoadError>)
        ensures
            match r {
                Ok(table) => {
                    &&& !nameless_candidate(view_symbols(symbols@), text_index as int)
                    &&& table@ == entry_points(view_symbols(symbols@), text_index as int)
                },
                Err(e) => {
                    &&& nameless_candidate(view_symbols(symbols@), text_index as int)
                    &&& e == LoadError::BadSymbol
                },
            },
    {
        let ghost all = view_symbols(symbols@);
        let mut table = FunctionTable::new();
        let mut i: usize = 0;
        while i < symbols.len()
            invariant
                all == view_symbols(symbols@),
                i <= symbols@.len(),
                table@ == entry_points(all.take(i as int), text_index as int),
                forall|k: int|
                    0 <= k < i && is_candidate(#[trigger] all[k], text_index as int)
                        ==> all[k].name is Some,
            decreases symbols@.len() - i,
        {
            let symbol = &symbols[i];
            proof {
                assert(all.take(i + 1).drop_last() =~= all.take(i as int));
            }
            if symbol.entry.st_vis == STV_DEFAULT && symbol.entry.st_name != 0
                && symbol.entry.st_shndx as usize == text_index {
                match &symbol.name {
                    None => {
                        return Err(LoadError::BadSymbol);
                    },
                    Some(name) => {
                        if is_exportable(name.as_str()) {
                            table.insert(name.clone(), symbol.entry.st_value);
                        }
                    },
                }
            }
            i = i + 1;
        }
        assert(all.take(i as int) =~= all);
        Ok(table)
    }
}

/// Whether a symbol of this name can be an entry point: the name is
/// neither empty nor reserved.
fn is_exportable(name: &str) -> (b: bool)
    ensures
        b == (name@.len() > 0 && !is_reserved(name@)),
{
    let len = name.unicode_len();
    if len == 0 {
        false
    } else if len == 1 {
        true
    } else {
        !(name.get_char(0) == '_' && name.get_char(1) == '_')
    }
}

} // verus!
