//! What a contract sees of its host: addresses, byte strings, symbols, and the
//! invocation it runs in.

use vstd::prelude::*;

verus! {

/// Whether the two arrays hold the same bytes.
fn same_bytes<const N: usize>(a: &[u8; N], b: &[u8; N]) -> (equal: bool)
    ensures
        equal == (*a == *b),
{
    let mut i: usize = 0;
    while i < N
        invariant
            i <= N,
            forall|j: int| 0 <= j < i ==> a@[j] == b@[j],
        decreases N - i,
    {
        if a[i] != b[i] {
            return false;
        }
        i += 1;
    }
    assert(*a =~= *b);
    true
}

/// An account or contract, by its string key.
#[derive(Clone, Copy, Debug, PartialEq, Eq)]
pub struct Address {
    /// The string key's characters.
    pub strkey: [u8; 56],
}

impl Address {
    /// Whether the two addresses are equal.
    pub fn same(&self, other: &Address) -> (equal: bool)
        ensures
            equal == (*self == *other),
    {
        same_bytes(&self.strkey, &other.strkey)
    }
}

/// A byte string of fixed length.
#[derive(Clone, Copy, Debug, PartialEq, Eq)]
pub struct BytesN<const N: usize> {
    /// The bytes.
    pub bytes: [u8; N],
}

impl<const N: usize> BytesN<N> {
    /// The byte string that holds `bytes`.
    pub fn from_array(bytes: [u8; N]) -> (value: Self)
        ensures
            value.bytes == bytes,
    {
        BytesN { bytes }
    }

    /// Whether the two byte strings are equal.
    pub fn same(&self, other: &Self) -> (equal: bool)
        ensures
            equal == (*self == *other),
    {
        same_bytes(&self.bytes, &other.bytes)
    }
}

/// The most characters a symbol has.
pub const SYMBOL_LIMIT: usize = 32;

/// Whether `c` may stand in a symbol: a letter, a digit or an underscore.
pub open spec fn is_symbol_char(c: u8) -> bool {
    ||| 48 <= c <= 57
    ||| 65 <= c <= 90
    ||| 97 <= c <= 122
    ||| c == 95
}

/// Whether `text` spells a symbol.
pub open spec fn spells_symbol(text: Seq<u8>) -> bool {
    &&& text.len() <= SYMBOL_LIMIT
    &&& forall|i: int| 0 <= i < text.len() ==> is_symbol_char(#[trigger] text[i])
}

/// The symbol without characters.
pub open spec fn blank_symbol() -> Symbol {
    Symbol { text: vstd::array::spec_array_fill_for_copy_type::<u8, 32>(0u8) }
}

/// A short name, padded with zero bytes.
#[derive(Clone, Copy, Debug, PartialEq, Eq)]
pub struct Symbol {
    /// The characters, then zeros.
    pub text: [u8; 32],
}

impl Symbol {
    /// Whether the symbol spells `text`.
    pub open spec fn spells(&self, text: Seq<u8>) -> bool {
        &&& text.len() <= SYMBOL_LIMIT
        &&& forall|i: int| 0 <= i < text.len() ==> #[trigger] self.text@[i] == text[i]
        &&& forall|i: int| text.len() <= i < SYMBOL_LIMIT ==> #[trigger] self.text@[i] == 0
    }

    /// Whether the symbol has no characters.
    pub open spec fn is_blank(&self) -> bool {
        *self == blank_symbol()
    }

    /// The symbol that `text` spells, if it spells one.
    pub fn new(text: &[u8]) -> (symbol: Option<Symbol>)
        ensures
            symbol is Some <==> spells_symbol(text@),
            symbol matches Some(s) ==> s.spells(text@),
    {
        if text.len() > SYMBOL_LIMIT {
            return None;
        }
        let mut padded: [u8; 32] = [0; 32];
        let mut i: usize = 0;
        while i < text.len()
            invariant
                i <= text@.len() <= SYMBOL_LIMIT,
                forall|j: int| 0 <= j < i ==> is_symbol_char(#[trigger] text@[j]),
                forall|j: int| 0 <= j < i ==> #[trigger] padded@[j] == text@[j],
                forall|j: int| i <= j < SYMBOL_LIMIT ==> #[trigger] padded@[j] == 0,
            decreases text@.len() - i,
        {
            let c: u8 = text[i];
            let valid = (48 <= c && c <= 57) || (65 <= c && c <= 90) || (97 <= c && c <= 122) || c
                == 95;
            if !valid {
                assert(!is_symbol_char(text@[i as int]));
                return None;
            }
            padded[i] = c;
            i += 1;
        }
        Some(Symbol { text: padded })
    }

    /// The symbol without characters.
    pub fn empty() -> (symbol: Symbol)
        ensures
            symbol.is_blank(),
            symbol.spells(Seq::empty()),
    {
        Symbol { text: [0u8; 32] }
    }

    /// Whether the two symbols are equal.
    pub fn same(&self, other: &Symbol) -> (equal: bool)
        ensures
            equal == (*self == *other),
    {
        same_bytes(&self.text, &other.text)
    }
}

/// Symbols are told apart by what they spell, and by nothing else.
pub proof fn lemma_symbol_spelling_unique(a: Symbol, b: Symbol, s: Seq<u8>, t: Seq<u8>)
    requires
        a.spells(s),
        b.spells(t),
        spells_symbol(s),
        spells_symbol(t),
    ensures
        a == b <==> s == t,
{
    if s == t {
        assert(a.text =~= b.text);
    }
    if a == b {
        if s.len() < t.len() {
            assert(a.text@[s.len() as int] == 0);
            assert(is_symbol_char(t[s.len() as int]));
        }
        if t.len() < s.len() {
            assert(b.text@[t.len() as int] == 0);
            assert(is_symbol_char(s[t.len() as int]));
        }
        assert forall|i: int| 0 <= i < s.len() implies s[i] == t[i] by {
            assert(a.text@[i] == s[i]);
            assert(b.text@[i] == t[i]);
        }
        assert(s =~= t);
    }
}

/// A symbol is blank exactly when it spells the empty text.
pub proof fn lemma_blank_spells_nothing(symbol: Symbol, text: Seq<u8>)
    requires
        symbol.spells(text),
        spells_symbol(text),
    ensures
        symbol.is_blank() <==> text.len() == 0,
{
    assert(blank_symbol().spells(Seq::empty()));
    if text.len() == 0 {
        assert(text =~= Seq::empty());
    }
    lemma_symbol_spelling_unique(symbol, blank_symbol(), text, Seq::empty());
}

/// A text spells a symbol exactly when it has at most 32 characters and each is a
/// letter, a digit or an underscore.
pub proof fn lemma_symbol_texts(text: Seq<u8>)
    ensures
        spells_symbol(text) <==> {
            &&& text.len() <= 32
            &&& forall|i: int|
                0 <= i < text.len() ==> {
                    let c = (#[trigger] text[i]) as char;
                    ||| 'a' <= c <= 'z'
                    ||| 'A' <= c <= 'Z'
                    ||| '0' <= c <= '9'
                    ||| c == '_'
                }
        },
{
}

/// A symbol that spells a text holds its characters in order, then zeros.
pub proof fn lemma_symbol_holds_text(symbol: Symbol, text: Seq<u8>)
    ensures
        symbol.spells(text) <==> text.len() <= 32 && forall|i: int|
            0 <= i < 32 ==> #[trigger] symbol.text@[i] == (if i < text.len() {
                text[i]
            } else {
                0
            }),
{
}

/// The circumstances of one call: what the host answers while it runs.
pub struct Invocation {
    /// Ledger time, in Unix seconds.
    pub timestamp: u64,
    /// What the configured pause manager answers. Counts only where a pause
    /// manager is configured.
    pub paused: bool,
    /// The addresses that authorized this call.
    pub authorizers: Vec<Address>,
}

impl Invocation {
    /// Whether `address` authorized this call.
    pub open spec fn authorized_by(&self, address: Address) -> bool {
        self.authorizers@.contains(address)
    }

    /// Whether `address` authorized this call.
    pub fn is_authorized_by(&self, address: &Address) -> (authorized: bool)
        ensures
            authorized == self.authorized_by(*address),
    {
        let mut i: usize = 0;
        while i < self.authorizers.len()
            invariant
                i <= self.authorizers@.len(),
                forall|j: int| 0 <= j < i ==> #[trigger] self.authorizers@[j] != *address,
            decreases self.authorizers@.len() - i,
        {
            if self.authorizers[i].same(address) {
                assert(self.authorizers@[i as int] == *address);
                return true;
            }
            i += 1;
        }
        false
    }
}

/// Why a call is aborted: it is rolled back, without an error code.
#[derive(Clone, Copy, Debug, PartialEq, Eq, Structural)]
pub enum Abort {
    /// The contract has an admin already.
    AlreadyInitialized,
    /// The contract has no admin yet.
    NotInitialized,
    /// The address that must authorize the call did not.
    NotAuthorized,
    /// The pause manager holds the contract.
    Paused,
    /// A sum does not fit its type.
    Overflow,
    /// The caller is not the admin.
    Unauthorized,
    /// There is no payroll run of that identifier.
    RunNotFound,
    /// The run has an open review.
    ReviewAlreadyOpen,
    /// The run has no review.
    ReviewNotFound,
    /// The run's review is closed.
    ReviewAlreadyResolved,
    /// The reason is empty.
    EmptyReason,
}

/// The message that goes with an abort.
pub open spec fn abort_message(abort: Abort) -> Seq<char> {
    match abort {
        Abort::AlreadyInitialized => "Already initialized"@,
        Abort::NotInitialized => "Not initialized"@,
        Abort::NotAuthorized => "Authorization missing"@,
        Abort::Paused => "Payroll is paused"@,
        Abort::Overflow => "attempt to add with overflow"@,
        Abort::Unauthorized => "Unauthorized"@,
        Abort::RunNotFound => "Run not found"@,
        Abort::ReviewAlreadyOpen => "Review already open for this run"@,
        Abort::ReviewNotFound => "Review not found"@,
        Abort::ReviewAlreadyResolved => "Review already resolved"@,
        Abort::EmptyReason => "Resolution reason must not be empty"@,
    }
}

impl Abort {
    /// The message that goes with the abort.
    pub fn message(&self) -> (text: &'static str)
        ensures
            text@ == abort_message(*self),
    {
        match self {
            Abort::AlreadyInitialized => "Already initialized",
            Abort::NotInitialized => "Not initialized",
            Abort::NotAuthorized => "Authorization missing",
            Abort::Paused => "Payroll is paused",
            Abort::Overflow => "attempt to add with overflow",
            Abort::Unauthorized => "Unauthorized",
            Abort::RunNotFound => "Run not found",
            Abort::ReviewAlreadyOpen => "Review already open for this run",
            Abort::ReviewNotFound => "Review not found",
            Abort::ReviewAlreadyResolved => "Review already resolved",
            Abort::EmptyReason => "Resolution reason must not be empty",
        }
    }
}

/// How a call that does not succeed ends.
#[derive(Debug, PartialEq, Eq)]
pub enum Failure<E> {
    /// The call is aborted.
    Abort(Abort),
    /// The contract answers with one of its errors.
    Error(E),
}

} // verus!
