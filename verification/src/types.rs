//! Addresses, currency symbols, and the comparison they share as table keys.

use vstd::prelude::*;

verus! {

/// A value that can be compared for equality in verified code.
pub trait Key: Copy {
    /// Whether two keys are the same value.
    fn same(&self, other: &Self) -> (r: bool)
        ensures
            r == (*self == *other),
    ;
}

/// Compares two 32-byte blocks.
pub fn same_bytes(a: &[u8; 32], b: &[u8; 32]) -> (r: bool)
    ensures
        r == (*a == *b),
{
    let mut i: usize = 0;
    while i < 32
        invariant
            i <= 32,
            forall|j: int| 0 <= j < i ==> a@[j] == b@[j],
        decreases 32 - i,
    {
        if a[i] != b[i] {
            return false;
        }
        i = i + 1;
    }
    assert(*a =~= *b);
    true
}

/// What an address points at.
#[derive(Clone, Copy, Debug, PartialEq, Eq, Structural)]
pub enum AddressKind {
    /// An account, known by its Ed25519 public key.
    Account,
    /// A contract, known by its hash.
    Contract,
}

/// The address of an account or of a contract: its kind and its 32-byte payload.
#[derive(Clone, Copy, Debug, PartialEq, Eq)]
pub struct Address {
    pub kind: AddressKind,
    pub payload: [u8; 32],
}

impl Key for Address {
    fn same(&self, other: &Self) -> (r: bool) {
        self.kind == other.kind && same_bytes(&self.payload, &other.payload)
    }
}

/// Whether `c` may occur in a symbol: a letter, a digit or an underscore.
pub open spec fn is_symbol_char(c: u8) -> bool {
    ||| c == '_' as u8
    ||| '0' as u8 <= c <= '9' as u8
    ||| 'A' as u8 <= c <= 'Z' as u8
    ||| 'a' as u8 <= c <= 'z' as u8
}

/// Whether `text` can be a symbol: at most 32 characters, each of them allowed.
pub open spec fn is_symbol_text(text: Seq<u8>) -> bool {
    &&& text.len() <= 32
    &&& forall|i: int| 0 <= i < text.len() ==> is_symbol_char(#[trigger] text[i])
}

/// The 32 bytes that hold `text`: the characters, then zeros.
pub open spec fn padded(text: Seq<u8>) -> Seq<u8> {
    Seq::new(32, |i: int| if i < text.len() { text[i] } else { 0 })
}

/// A currency code of up to 32 characters.
#[derive(Clone, Copy, Debug, PartialEq, Eq)]
pub struct Symbol {
    len: usize,
    text: [u8; 32],
}

impl View for Symbol {
    type V = Seq<u8>;

    closed spec fn view(&self) -> Seq<u8> {
        self.text@.take(self.len as int)
    }
}

impl Symbol {
    #[verifier::type_invariant]
    closed spec fn canonical(self) -> bool {
        &&& self.len <= 32
        &&& is_symbol_text(self.text@.take(self.len as int))
        &&& self.text@ == padded(self.text@.take(self.len as int))
    }

    /// The symbol that reads `text`, if `text` can be one.
    pub fn new(text: &[u8]) -> (r: Option<Symbol>)
        ensures
            r is Some <==> is_symbol_text(text@),
            r matches Some(symbol) ==> symbol@ == text@,
    {
        if text.len() > 32 {
            return None;
        }
        let mut block: [u8; 32] = [0; 32];
        let mut i: usize = 0;
        while i < text.len()
            invariant
                i <= text@.len() <= 32,
                forall|j: int| 0 <= j < i ==> block@[j] == text@[j] && is_symbol_char(text@[j]),
                forall|j: int| i <= j < 32 ==> block@[j] == 0,
            decreases text@.len() - i,
        {
            let c: u8 = text[i];
            let allowed: bool = c == '_' as u8 || ('0' as u8 <= c && c <= '9' as u8)
                || ('A' as u8 <= c && c <= 'Z' as u8) || ('a' as u8 <= c && c <= 'z' as u8);
            if !allowed {
                assert(!is_symbol_char(text@[i as int]));
                return None;
            }
            block[i] = c;
            i = i + 1;
        }
        assert(block@.take(text@.len() as int) =~= text@);
        assert(block@ =~= padded(text@));
        Some(Symbol { len: text.len(), text: block })
    }

    /// The characters of the symbol.
    pub fn to_bytes(&self) -> (r: Vec<u8>)
        ensures
            r@ == self@,
            is_symbol_text(self@),
    {
        proof {
            use_type_invariant(self);
        }
        let mut out: Vec<u8> = Vec::new();
        let mut i: usize = 0;
        while i < self.len
            invariant
                i <= self.len <= 32,
                out@ == self.text@.take(i as int),
            decreases self.len - i,
        {
            out.push(self.text[i]);
            i = i + 1;
            assert(out@ =~= self.text@.take(i as int));
        }
        out
    }

    /// Whether two symbols read the same.
    pub fn reads_as(&self, other: &Symbol) -> (r: bool)
        ensures
            r == (self@ == other@),
            r == (*self == *other),
    {
        proof {
            use_type_invariant(self);
            use_type_invariant(other);
        }
        let r: bool = self.same(other);
        proof {
            if self@ == other@ {
                assert(self.text =~= other.text);
            }
        }
        r
    }
}

impl Key for Symbol {
    fn same(&self, other: &Self) -> (r: bool) {
        self.len == other.len && same_bytes(&self.text, &other.text)
    }
}

/// A symbol has at most 32 characters, each a letter, a digit or an underscore, by
/// their ASCII codes.
pub proof fn law_symbol_characters(text: Seq<u8>)
    ensures
        is_symbol_text(text) <==> text.len() <= 32 && forall|i: int|
            0 <= i < text.len() ==> {
                ||| (#[trigger] text[i]) == 95
                ||| 48 <= text[i] <= 57
                ||| 65 <= text[i] <= 90
                ||| 97 <= text[i] <= 122
            },
{
    assert forall|i: int| 0 <= i < text.len() implies is_symbol_char(#[trigger] text[i]) == {
        ||| text[i] == 95
        ||| 48 <= text[i] <= 57
        ||| 65 <= text[i] <= 90
        ||| 97 <= text[i] <= 122
    } by {}
}

} // verus!
