//! Object modules: a code block, a data block and a symbol table.

pub mod parser;

use vstd::prelude::*;

verus! {

/// The words of the program, to be placed at the offsets `start` to `end`.
#[derive(Debug)]
pub struct CodeBlock {
    pub start: usize,
    /// Offset of the last word, or `start - 1` for a block without words.
    pub end: usize,
    pub instructions: Vec<u32>,
}

/// The initial data, to be placed at the offsets `start` to `end`.
#[derive(Debug)]
pub struct DataBlock {
    pub start: usize,
    /// Offset of the last word, or `start - 1` for a block without words.
    pub end: usize,
    pub data: Vec<u32>,
}

/// The number of words between two inclusive offsets.
pub open spec fn span(start: int, end: int) -> int {
    end - start + 1
}

impl CodeBlock {
    /// The block holds as many words as its offsets span.
    pub open spec fn wf(&self) -> bool {
        self.instructions@.len() == span(self.start as int, self.end as int)
    }
}

impl DataBlock {
    /// The block holds as many words as its offsets span.
    pub open spec fn wf(&self) -> bool {
        self.data@.len() == span(self.start as int, self.end as int)
    }
}

/// One line of a symbol table.
#[derive(Debug)]
pub struct Symbol {
    pub name: Vec<u8>,
    pub address: usize,
}

/// A mapping from names to addresses. A name occurs once; a second
/// definition of a name replaces the first.
#[derive(Debug)]
pub struct SymbolTable {
    entries: Vec<Symbol>,
}

/// Whether two texts hold the same bytes.
pub fn bytes_equal(a: &[u8], b: &[u8]) -> (same: bool)
    ensures
        same == (a@ == b@),
{
    if a.len() != b.len() {
        return false;
    }
    let mut i: usize = 0;
    while i < a.len()
        invariant
            i <= a@.len(),
            a@.len() == b@.len(),
            forall|k: int| 0 <= k < i ==> a@[k] == b@[k],
        decreases a@.len() - i,
    {
        if a[i] != b[i] {
            return false;
        }
        i += 1;
    }
    assert(a@ =~= b@);
    true
}

impl View for SymbolTable {
    type V = Map<Seq<u8>, usize>;

    closed spec fn view(&self) -> Map<Seq<u8>, usize> {
        Map::new(
            |name: Seq<u8>| self.defines(name),
            |name: Seq<u8>| self.entries@[self.index_of(name)].address,
        )
    }
}

impl SymbolTable {
    /// The table's invariant: no name occurs twice.
    pub closed spec fn wf(&self) -> bool {
        forall|i: int, j: int|
            0 <= i < j < self.entries@.len() ==> (#[trigger] self.entries@[i]).name@ != (
            #[trigger] self.entries@[j]).name@
    }

    /// The number of entries.
    pub closed spec fn spec_len(&self) -> nat {
        self.entries@.len()
    }

    /// The entries in the order in which their names were first defined.
    pub closed spec fn spec_entry(&self, i: int) -> (Seq<u8>, usize) {
        (self.entries@[i].name@, self.entries@[i].address)
    }

    /// Some entry has the name.
    spec fn defines(&self, name: Seq<u8>) -> bool {
        exists|i: int| 0 <= i < self.entries@.len() && (#[trigger] self.entries@[i]).name@ == name
    }

    /// The index of an entry that has the name.
    spec fn index_of(&self, name: Seq<u8>) -> int {
        choose|i: int| 0 <= i < self.entries@.len() && (#[trigger] self.entries@[i]).name@ == name
    }

    /// The entry at `i` is the one that defines its name.
    proof fn lemma_index(&self, i: int)
        requires
            self.wf(),
            0 <= i < self.entries@.len(),
        ensures
            self.defines(self.entries@[i].name@),
            self.index_of(self.entries@[i].name@) == i,
            self@.dom().contains(self.entries@[i].name@),
            self@[self.entries@[i].name@] == self.entries@[i].address,
    {
    }

    /// Every entry is a pair of the mapping, and every pair of the mapping is
    /// an entry.
    pub proof fn lemma_entries(&self)
        requires
            self.wf(),
        ensures
            forall|i: int|
                0 <= i < self.spec_len() ==> self@.dom().contains(
                    (#[trigger] self.spec_entry(i)).0,
                ) && self@[self.spec_entry(i).0] == self.spec_entry(i).1,
            forall|name: Seq<u8>| #[trigger]
                self@.dom().contains(name) ==> exists|i: int|
                    0 <= i < self.spec_len() && #[trigger] self.spec_entry(i) == (name, self@[name]),
    {
        assert forall|i: int| 0 <= i < self.spec_len() implies self@.dom().contains(
            (#[trigger] self.spec_entry(i)).0,
        ) && self@[self.spec_entry(i).0] == self.spec_entry(i).1 by {
            self.lemma_index(i);
        }
        assert forall|name: Seq<u8>| #[trigger] self@.dom().contains(name) implies exists|i: int|
            0 <= i < self.spec_len() && #[trigger] self.spec_entry(i) == (name, self@[name]) by {
            let i = self.index_of(name);
            assert(self.spec_entry(i) == (name, self@[name]));
        }
    }

    /// The empty table.
    pub fn new() -> (table: SymbolTable)
        ensures
            table.wf(),
            table@ == Map::<Seq<u8>, usize>::empty(),
            table.spec_len() == 0,
    {
        let table = SymbolTable { entries: Vec::new() };
        table
    }

    /// The index of the entry that has the name, if there is one.
    fn position(&self, name: &[u8]) -> (found: Option<usize>)
        requires
            self.wf(),
        ensures
            match found {
                Some(i) => i < self.entries@.len() && self.entries@[i as int].name@ == name@,
                None => !self.defines(name@),
            },
    {
        let mut i: usize = 0;
        while i < self.entries.len()
            invariant
                i <= self.entries@.len(),
                forall|k: int| 0 <= k < i ==> (#[trigger] self.entries@[k]).name@ != name@,
            decreases self.entries@.len() - i,
        {
            if bytes_equal(self.entries[i].name.as_slice(), name) {
                return Some(i);
            }
            i += 1;
        }
        None
    }

    /// Defines `name` as `address`, in place of an earlier definition if
    /// there is one.
    pub fn insert(&mut self, name: Vec<u8>, address: usize)
        requires
            old(self).wf(),
        ensures
            final(self).wf(),
            final(self)@ == old(self)@.insert(name@, address),
    {
        let found = self.position(name.as_slice());
        let ghost key = name@;
        match found {
            Some(i) => {
                self.entries.set(i, Symbol { name, address });
                proof {
                    assert forall|other: Seq<u8>| self.defines(other) == old(self).defines(
                        other,
                    ) by {
                        if old(self).defines(other) {
                            let k = old(self).index_of(other);
                            assert(self.entries@[k].name@ == other);
                        }
                    }
                    old(self).lemma_index(i as int);
                    assert forall|other: Seq<u8>| self.defines(other) implies self@[other] == old(
                        self,
                    )@.insert(key, address)[other] by {
                        let k = self.index_of(other);
                        self.lemma_index(k);
                        if k != i {
                            old(self).lemma_index(k);
                        }
                    }
                }
            },
            None => {
                self.entries.push(Symbol { name, address });
                proof {
                    let last = old(self).entries@.len() as int;
                    assert(self.entries@[last].name@ == key);
                    assert forall|i: int, j: int| 0 <= i < j < self.entries@.len() implies (
                    #[trigger] self.entries@[i]).name@ != (#[trigger] self.entries@[j]).name@ by {
                    }
                    assert forall|other: Seq<u8>|
                        self.defines(other) == (other == key || old(self).defines(other)) by {
                        if old(self).defines(other) {
                            let k = old(self).index_of(other);
                            assert(self.entries@[k].name@ == other);
                        }
                    }
                    assert forall|other: Seq<u8>| self.defines(other) implies self@[other] == old(
                        self,
                    )@.insert(key, address)[other] by {
                        let k = self.index_of(other);
                        self.lemma_index(k);
                        if k < last {
                            old(self).lemma_index(k);
                        }
                    }
                }
            },
        }
    }

    /// The address that `name` is defined as, if it is defined.
    pub fn get(&self, name: &[u8]) -> (address: Option<usize>)
        requires
            self.wf(),
        ensures
            address == if self@.dom().contains(name@) {
                Some(self@[name@])
            } else {
                None
            },
    {
        match self.position(name) {
            Some(i) => {
                proof {
                    self.lemma_index(i as int);
                }
                Some(self.entries[i].address)
            },
            None => None,
        }
    }

    /// The number of names defined.
    pub fn len(&self) -> (count: usize)
        ensures
            count == self.spec_len(),
    {
        self.entries.len()
    }

    /// The `i`-th entry, in the order in which the names were first defined.
    pub fn entry(&self, i: usize) -> (symbol: &Symbol)
        requires
            i < self.spec_len(),
        ensures
            (symbol.name@, symbol.address) == self.spec_entry(i as int),
    {
        &self.entries[i]
    }
}

/// What an object module holds.
pub struct ModuleModel {
    pub code_start: usize,
    pub code_end: usize,
    pub code: Seq<u32>,
    pub data_start: usize,
    pub data_end: usize,
    pub data: Seq<u32>,
    pub symbols: Map<Seq<u8>, usize>,
}

/// A program ready to be placed in memory.
#[derive(Debug)]
pub struct ObjectModule {
    pub code: CodeBlock,
    pub data: DataBlock,
    pub symbol_table: SymbolTable,
}

impl View for ObjectModule {
    type V = ModuleModel;

    open spec fn view(&self) -> ModuleModel {
        ModuleModel {
            code_start: self.code.start,
            code_end: self.code.end,
            code: self.code.instructions@,
            data_start: self.data.start,
            data_end: self.data.end,
            data: self.data.data@,
            symbols: self.symbol_table@,
        }
    }
}

impl ObjectModule {
    /// Both blocks hold as many words as their offsets span, and the symbol
    /// table meets its invariant.
    pub open spec fn wf(&self) -> bool {
        self.code.wf() && self.data.wf() && self.symbol_table.wf()
    }
}

} // verus!
