//! Resolving a named symbol's load address out of an executable image.
//!
//! The image is handed over as raw bytes; the `elf` crate parses its
//! header and symbol table behind one trusted wrapper, and the search for
//! the named entry is verified code. When several entries share the
//! name, the first one in table order wins.

use vstd::prelude::*;

use crate::bytesutil::bytes_eq;

verus! {

/// One entry of an image's symbol table: the name bytes and the symbol's
/// load-address value.
pub struct SymEntry {
    /// The symbol's name, byte for byte.
    pub name: Vec<u8>,
    /// The symbol's value: in an executable, its virtual load address.
    pub value: u64,
}

/// The mathematical shape of a symbol table: name bytes and value of
/// each entry, in table order.
pub open spec fn spec_sym_entries(entries: Seq<SymEntry>) -> Seq<(Seq<u8>, u64)> {
    entries.map_values(|e: SymEntry| (e.name@, e.value))
}

/// The symbol table of an executable image, as a function of the image
/// bytes alone: `None` when the bytes do not parse as an executable with
/// a well-formed symbol table, otherwise the entries in table order.
pub uninterp spec fn spec_elf_symbols(image: Seq<u8>) -> Option<Seq<(Seq<u8>, u64)>>;

/// Relies on `elf::ElfBytes::minimal_parse`, `ElfBytes::symbol_table`,
/// `SymbolTable::iter` and `StringTable::get`: the symbol table an ELF
/// image parses to is a pure function of the image bytes, and each
/// entry's `st_name` offset names its string in the associated string
/// table. Any parse failure, a missing symbol table, or a bad name
/// offset counts as no table.
#[verifier::external_body]
fn parse_elf_symbols(image: &[u8]) -> (r: Option<Vec<SymEntry>>)
    ensures
        match r {
            Some(entries) => spec_elf_symbols(image@) == Some(spec_sym_entries(entries@)),
            None => spec_elf_symbols(image@) is None,
        },
{
    let file = elf::ElfBytes::<elf::endian::AnyEndian>::minimal_parse(image).ok()?;
    let (symtab, strtab) = file.symbol_table().ok().flatten()?;
    let mut entries: Vec<SymEntry> = Vec::new();
    for sym in symtab.iter() {
        let name = strtab.get(sym.st_name as usize).ok()?;
        entries.push(SymEntry { name: name.as_bytes().to_vec(), value: sym.st_value });
    }
    Some(entries)
}

/// The value of the first entry named `name`, in table order, if any
/// entry is.
pub open spec fn spec_find_symbol(table: Seq<(Seq<u8>, u64)>, name: Seq<u8>) -> Option<u64>
    decreases table.len(),
{
    if table.len() == 0 {
        None
    } else if table[0].0 == name {
        Some(table[0].1)
    } else {
        spec_find_symbol(table.drop_first(), name)
    }
}

/// Skipping entries that do not carry the name leaves the search result
/// unchanged.
proof fn lemma_find_symbol_skip(table: Seq<(Seq<u8>, u64)>, name: Seq<u8>, i: int)
    requires
        0 <= i < table.len(),
        table[i].0 != name,
    ensures
        spec_find_symbol(table.skip(i), name) == spec_find_symbol(table.skip(i + 1), name),
{
    assert(table.skip(i).len() > 0);
    assert(table.skip(i)[0] == table[i]);
    assert(table.skip(i).drop_first() =~= table.skip(i + 1));
}

/// Find the first symbol-table entry named `name` and return its value.
pub fn find_symbol(entries: &Vec<SymEntry>, name: &[u8]) -> (r: Option<u64>)
    ensures
        r == spec_find_symbol(spec_sym_entries(entries@), name@),
{
    let ghost table = spec_sym_entries(entries@);
    proof {
        assert(table.skip(0) =~= table);
    }
    let mut i: usize = 0;
    while i < entries.len()
        invariant
            i <= entries@.len(),
            table == spec_sym_entries(entries@),
            table.len() == entries@.len(),
            spec_find_symbol(table, name@) == spec_find_symbol(table.skip(i as int), name@),
        decreases entries@.len() - i,
    {
        if bytes_eq(entries[i].name.as_slice(), name) {
            proof {
                assert(table.skip(i as int)[0] == table[i as int]);
                assert(table[i as int].0 == name@);
            }
            return Some(entries[i].value);
        }
        proof {
            lemma_find_symbol_skip(table, name@, i as int);
        }
        i = i + 1;
    }
    proof {
        assert(table.skip(entries@.len() as int) =~= Seq::<(Seq<u8>, u64)>::empty());
    }
    None
}

/// Why resolving a symbol failed.
#[derive(Clone, Copy, PartialEq, Eq, Structural, Debug)]
pub enum ResolveError {
    /// The image bytes do not parse as an executable with a symbol table.
    MalformedImage,
    /// The image parsed, but no symbol-table entry carries the name.
    SymbolNotFound,
}

impl ResolveError {
    /// A short diagnostic phrase for the error.
    pub fn describe(&self) -> (r: &'static str)
        ensures
            r@ == match self {
                ResolveError::MalformedImage => "malformed executable image"@,
                ResolveError::SymbolNotFound => "symbol not found in the image's symbol table"@,
            },
    {
        match self {
            ResolveError::MalformedImage => "malformed executable image",
            ResolveError::SymbolNotFound => "symbol not found in the image's symbol table",
        }
    }
}

/// Resolve the load address of the symbol named `name` inside the
/// executable image: the value of the first symbol-table entry whose
/// name matches byte for byte.
pub fn resolve_symbol(image: &[u8], name: &[u8]) -> (r: Result<u64, ResolveError>)
    ensures
        match spec_elf_symbols(image@) {
            None => r == Err::<u64, ResolveError>(ResolveError::MalformedImage),
            Some(table) => match spec_find_symbol(table, name@) {
                Some(addr) => r == Ok::<u64, ResolveError>(addr),
                None => r == Err::<u64, ResolveError>(ResolveError::SymbolNotFound),
            },
        },
{
    match parse_elf_symbols(image) {
        None => Err(ResolveError::MalformedImage),
        Some(entries) => match find_symbol(&entries, name) {
            Some(addr) => Ok(addr),
            None => Err(ResolveError::SymbolNotFound),
        },
    }
}

/// A table whose entry `i` carries the name, with no earlier entry
/// carrying it, resolves to exactly that entry's value: the first match
/// in table order wins.
pub proof fn lemma_find_symbol_found(table: Seq<(Seq<u8>, u64)>, name: Seq<u8>, i: int)
    requires
        0 <= i < table.len(),
        table[i].0 == name,
        forall|j: int| 0 <= j < i ==> table[j].0 != name,
    ensures
        spec_find_symbol(table, name) == Some(table[i].1),
    decreases table.len(),
{
    if i == 0 {
    } else {
        let rest = table.drop_first();
        assert forall|j: int| 0 <= j < i - 1 implies rest[j].0 != name by {
            assert(rest[j] == table[j + 1]);
        }
        assert(rest[i - 1] == table[i]);
        lemma_find_symbol_found(rest, name, i - 1);
    }
}

/// A table no entry of which carries the name does not resolve it.
pub proof fn lemma_find_symbol_absent(table: Seq<(Seq<u8>, u64)>, name: Seq<u8>)
    requires
        forall|j: int| 0 <= j < table.len() ==> table[j].0 != name,
    ensures
        spec_find_symbol(table, name) is None,
    decreases table.len(),
{
    if table.len() > 0 {
        let rest = table.drop_first();
        assert forall|j: int| 0 <= j < rest.len() implies rest[j].0 != name by {
            assert(rest[j] == table[j + 1]);
        }
        lemma_find_symbol_absent(rest, name);
    }
}

} // verus!
