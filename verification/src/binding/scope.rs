use vstd::prelude::*;

use crate::binding::BoundStatement;
use crate::diagnostics::Diagnostic;
use crate::text::VariableSymbol;

verus! {

/// The mathematical model of a scope chain: one sequence of declared
/// symbols per lexical level, outermost level first.
pub type ScopeChain = Seq<Seq<VariableSymbol>>;

/// Whether `syms` declares a symbol named `name`.
pub open spec fn symbols_contain(syms: Seq<VariableSymbol>, name: Seq<char>) -> bool {
    exists|i: int| 0 <= i < syms.len() && #[trigger] syms[i].name@ == name
}

/// The first symbol named `name` in `syms`, in declaration order.
pub open spec fn symbols_find(syms: Seq<VariableSymbol>, name: Seq<char>) -> Option<VariableSymbol>
    decreases syms.len(),
{
    if syms.len() == 0 {
        None
    } else if syms.first().name@ == name {
        Some(syms.first())
    } else {
        symbols_find(syms.drop_first(), name)
    }
}

/// Looks `name` up level by level, innermost level first.
pub open spec fn chain_lookup(chain: ScopeChain, name: Seq<char>) -> Option<VariableSymbol>
    decreases chain.len(),
{
    if chain.len() == 0 {
        None
    } else {
        match symbols_find(chain.last(), name) {
            Some(v) => Some(v),
            None => chain_lookup(chain.drop_last(), name),
        }
    }
}

/// What declaring `symbol` does to a chain: refused when the innermost
/// level already has the name (shadowing an outer level is fine), else
/// appended to the innermost level.
pub open spec fn chain_declare(chain: ScopeChain, symbol: VariableSymbol) -> (bool, ScopeChain)
    recommends
        chain.len() > 0,
{
    if symbols_contain(chain.last(), symbol.name@) {
        (false, chain)
    } else {
        (true, chain.update(chain.len() - 1, chain.last().push(symbol)))
    }
}

/// No two symbols of one level share a name.
pub open spec fn symbols_unique(syms: Seq<VariableSymbol>) -> bool {
    forall|i: int, j: int|
        0 <= i < j < syms.len() ==> #[trigger] syms[i].name@ != #[trigger] syms[j].name@
}

/// Every level of the chain declares each name at most once.
pub open spec fn chain_wf(chain: ScopeChain) -> bool {
    forall|lv: int| 0 <= lv < chain.len() ==> symbols_unique(#[trigger] chain[lv])
}

pub proof fn lemma_symbols_find_some(syms: Seq<VariableSymbol>, name: Seq<char>, i: int)
    requires
        symbols_unique(syms),
        0 <= i < syms.len(),
        syms[i].name@ == name,
    ensures
        symbols_find(syms, name) == Some(syms[i]),
    decreases syms.len(),
{
    if i == 0 {
    } else {
        assert(syms.drop_first()[i - 1] == syms[i]);
        assert(symbols_unique(syms.drop_first())) by {
            assert(forall|a: int, b: int|
                0 <= a < b < syms.drop_first().len() ==> #[trigger] syms.drop_first()[a].name@
                    != #[trigger] syms.drop_first()[b].name@) by {
                assert(forall|a: int|
                    0 <= a < syms.drop_first().len() ==> syms.drop_first()[a] == syms[a + 1]);
            }
        }
        lemma_symbols_find_some(syms.drop_first(), name, i - 1);
    }
}

pub proof fn lemma_symbols_find_none(syms: Seq<VariableSymbol>, name: Seq<char>)
    requires
        !symbols_contain(syms, name),
    ensures
        symbols_find(syms, name) is None,
    decreases syms.len(),
{
    if syms.len() > 0 {
        assert(syms[0].name@ != name);
        assert(!symbols_contain(syms.drop_first(), name)) by {
            assert(forall|a: int|
                0 <= a < syms.drop_first().len() ==> syms.drop_first()[a] == syms[a + 1]);
        }
        lemma_symbols_find_none(syms.drop_first(), name);
    }
}

/// A chained symbol table: the symbols declared directly in this scope,
/// and the enclosing scope, if any.
#[derive(Debug)]
pub struct BoundScope {
    pub symbols: Vec<VariableSymbol>,
    pub parent: Option<Box<BoundScope>>,
}

impl BoundScope {
    /// The scope chain this scope closes: its ancestors' levels, then its own.
    pub open spec fn chain(self) -> ScopeChain
        decreases self,
    {
        match self.parent {
            None => seq![self.symbols@],
            Some(p) => p.chain().push(self.symbols@),
        }
    }

    /// Every level of the chain declares each name at most once.
    pub open spec fn wf(self) -> bool {
        chain_wf(self.chain())
    }

    pub proof fn lemma_chain_nonempty(self)
        ensures
            self.chain().len() > 0,
            self.chain().last() == self.symbols@,
            self.chain()[self.chain().len() - 1] == self.symbols@,
            self.wf() ==> symbols_unique(self.symbols@),
    {
        if self.wf() {
            assert(symbols_unique(self.chain()[self.chain().len() - 1]));
        }
    }

    /// A new scope with no declarations yet, enclosed by `parent`.
    pub fn new(parent: Option<Box<BoundScope>>) -> (r: BoundScope)
        ensures
            r.symbols@ == Seq::<VariableSymbol>::empty(),
            r.parent == parent,
    {
        BoundScope { symbols: Vec::new(), parent }
    }

    /// Declares `symbol` here unless this scope (parents are not consulted:
    /// shadowing is legal) already has the name; reports whether it did,
    /// and changes nothing when it did not.
    #[verifier::loop_isolation(false)]
    pub fn try_declare(&mut self, symbol: VariableSymbol) -> (r: bool)
        requires
            old(self).wf(),
        ensures
            final(self).wf(),
            final(self).parent == old(self).parent,
            r == chain_declare(old(self).chain(), symbol).0,
            final(self).chain() == chain_declare(old(self).chain(), symbol).1,
            r ==> final(self).symbols@ == old(self).symbols@.push(symbol),
            !r ==> *final(self) == *old(self),
    {
        proof {
            old(self).lemma_chain_nonempty();
        }
        let mut i: usize = 0;
        while i < self.symbols.len()
            invariant
                *self == *old(self),
                0 <= i <= self.symbols@.len(),
                forall|j: int| 0 <= j < i ==> #[trigger] self.symbols@[j].name@ != symbol.name@,
            decreases self.symbols@.len() - i,
        {
            if self.symbols[i].name == symbol.name {
                proof {
                    assert(symbols_contain(old(self).chain().last(), symbol.name@));
                    assert(chain_wf(self.chain()));
                }
                return false;
            }
            i += 1;
        }
        proof {
            assert(!symbols_contain(old(self).chain().last(), symbol.name@));
        }
        self.symbols.push(symbol);
        proof {
            let oldc = old(self).chain();
            assert(self.chain() =~= chain_declare(oldc, symbol).1);
            assert(symbols_unique(self.symbols@)) by {
                assert(forall|j: int|
                    0 <= j < old(self).symbols@.len() ==> self.symbols@[j] == old(
                        self,
                    ).symbols@[j]);
            }
            assert(chain_wf(self.chain())) by {
                let newc = self.chain();
                assert(forall|lv: int|
                    0 <= lv < newc.len() - 1 ==> newc[lv] == oldc[lv]);
                assert(newc.last() == self.symbols@);
            }
        }
        true
    }

    /// Looks `name` up here, then outward through the ancestors; the
    /// innermost declaration wins.
    #[verifier::loop_isolation(false)]
    pub fn try_lookup(&self, name: &String) -> (r: Option<&VariableSymbol>)
        requires
            self.wf(),
        ensures
            match r {
                Some(v) => chain_lookup(self.chain(), name@) == Some(*v),
                None => chain_lookup(self.chain(), name@) is None,
            },
        decreases *self,
    {
        proof {
            self.lemma_chain_nonempty();
        }
        let mut i: usize = 0;
        while i < self.symbols.len()
            invariant
                self.wf(),
                symbols_unique(self.symbols@),
                self.chain().last() == self.symbols@,
                self.chain().len() > 0,
                0 <= i <= self.symbols@.len(),
                forall|j: int| 0 <= j < i ==> #[trigger] self.symbols@[j].name@ != name@,
            decreases self.symbols@.len() - i,
        {
            if self.symbols[i].name == *name {
                proof {
                    lemma_symbols_find_some(self.symbols@, name@, i as int);
                }
                return Some(&self.symbols[i]);
            }
            i += 1;
        }
        proof {
            assert(!symbols_contain(self.symbols@, name@));
            lemma_symbols_find_none(self.symbols@, name@);
        }
        match &self.parent {
            None => None,
            Some(p) => {
                proof {
                    assert(self.chain() == (**p).chain().push(self.symbols@));
                    assert(self.chain().drop_last() =~= (**p).chain());
                    assert(chain_wf((**p).chain())) by {
                        assert(forall|lv: int|
                            0 <= lv < (**p).chain().len() ==> (**p).chain()[lv]
                                == self.chain()[lv]);
                    }
                    assert(chain_lookup(self.chain(), name@) == chain_lookup(
                        (**p).chain(),
                        name@,
                    ));
                }
                p.try_lookup(name)
            },
        }
    }

    /// The symbols declared directly in this scope, in declaration order.
    #[verifier::loop_isolation(false)]
    pub fn get_declared_variables(&self) -> (r: Vec<VariableSymbol>)
        ensures
            r@ == self.symbols@,
    {
        let mut result: Vec<VariableSymbol> = Vec::new();
        let mut i: usize = 0;
        while i < self.symbols.len()
            invariant
                0 <= i <= self.symbols@.len(),
                result@ == self.symbols@.subrange(0, i as int),
            decreases self.symbols@.len() - i,
        {
            result.push(self.symbols[i].duplicate());
            proof {
                assert(result@ =~= self.symbols@.subrange(0, i + 1));
            }
            i += 1;
        }
        proof {
            assert(result@ =~= self.symbols@);
        }
        result
    }
}

/// One submission's record: the diagnostics of its binding pass, the
/// top-level symbols it declared, its bound statement, and a link to the
/// previous submission's record.
#[derive(Debug)]
pub struct BoundGlobalScope {
    pub previous: Option<Box<BoundGlobalScope>>,
    pub diagnostics: Vec<Diagnostic>,
    pub variables: Vec<VariableSymbol>,
    pub statement: BoundStatement,
}

} // verus!
