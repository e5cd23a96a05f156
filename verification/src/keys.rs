//! The key types of the contract's tables and the order the store lists them in.
use vstd::prelude::*;
use vstd::utf8::*;
use crate::order::{bytes_precede, bytes_precede_exec, lemma_bytes_irreflexive, lemma_bytes_total, lemma_bytes_transitive};
use crate::store::StoreKey;

verus! {

/// The bytes that the store holds for a text.
pub open spec fn utf8(s: Seq<char>) -> Seq<u8> {
    encode_utf8(s)
}

/// Order of a key part that the store writes with a length prefix: shorter
/// first, then by bytes.
pub open spec fn sized_precede(a: Seq<u8>, b: Seq<u8>) -> bool {
    a.len() < b.len() || (a.len() == b.len() && bytes_precede(a, b))
}

/// A text fits in a key part with a length prefix.
pub open spec fn fits_key(s: Seq<char>) -> bool {
    utf8(s).len() <= 0xFFFF
}

pub proof fn lemma_utf8_injective(x: Seq<char>, y: Seq<char>)
    requires
        utf8(x) == utf8(y),
    ensures
        x == y,
{
    encode_utf8_decode_utf8(x);
    encode_utf8_decode_utf8(y);
}

pub proof fn lemma_sized_irreflexive(a: Seq<u8>)
    ensures
        !sized_precede(a, a),
{
    lemma_bytes_irreflexive(a);
}

pub proof fn lemma_sized_transitive(a: Seq<u8>, b: Seq<u8>, c: Seq<u8>)
    requires
        sized_precede(a, b),
        sized_precede(b, c),
    ensures
        sized_precede(a, c),
{
    if a.len() == b.len() && b.len() == c.len() {
        lemma_bytes_transitive(a, b, c);
    }
}

pub proof fn lemma_sized_total(a: Seq<u8>, b: Seq<u8>)
    requires
        a != b,
    ensures
        sized_precede(a, b) || sized_precede(b, a),
{
    lemma_bytes_total(a, b);
}

/// The bytes of a text.
pub fn text_bytes(s: &String) -> (r: &[u8])
    ensures
        r@ == utf8(s@),
{
    s.as_str().as_bytes()
}

/// Compares two texts by `sized_precede` of their bytes.
fn sized_precede_exec(a: &String, b: &String) -> (r: bool)
    ensures
        r == sized_precede(utf8(a@), utf8(b@)),
{
    let x = text_bytes(a);
    let y = text_bytes(b);
    if x.len() != y.len() {
        x.len() < y.len()
    } else {
        bytes_precede_exec(x, y)
    }
}

/// Asks, keyed by (collection, token id); the collection is written with a
/// length prefix.
impl StoreKey for (String, String) {
    open spec fn precedes(a: (Seq<char>, Seq<char>), b: (Seq<char>, Seq<char>)) -> bool {
        sized_precede(utf8(a.0), utf8(b.0)) || (a.0 == b.0 && bytes_precede(utf8(a.1), utf8(b.1)))
    }

    proof fn lemma_irreflexive(a: (Seq<char>, Seq<char>)) {
        lemma_sized_irreflexive(utf8(a.0));
        lemma_bytes_irreflexive(utf8(a.1));
    }

    proof fn lemma_transitive(
        a: (Seq<char>, Seq<char>),
        b: (Seq<char>, Seq<char>),
        c: (Seq<char>, Seq<char>),
    ) {
        if sized_precede(utf8(a.0), utf8(b.0)) && sized_precede(utf8(b.0), utf8(c.0)) {
            lemma_sized_transitive(utf8(a.0), utf8(b.0), utf8(c.0));
        }
        if a.0 == b.0 && b.0 == c.0 {
            lemma_sized_irreflexive(utf8(a.0));
            lemma_bytes_transitive(utf8(a.1), utf8(b.1), utf8(c.1));
        }
    }

    proof fn lemma_total(a: (Seq<char>, Seq<char>), b: (Seq<char>, Seq<char>)) {
        if a.0 != b.0 {
            if utf8(a.0) == utf8(b.0) {
                lemma_utf8_injective(a.0, b.0);
            }
            lemma_sized_total(utf8(a.0), utf8(b.0));
        } else {
            if utf8(a.1) == utf8(b.1) {
                lemma_utf8_injective(a.1, b.1);
            }
            lemma_bytes_total(utf8(a.1), utf8(b.1));
        }
    }

    fn precedes_exec(&self, other: &(String, String)) -> (r: bool) {
        if sized_precede_exec(&self.0, &other.0) {
            true
        } else if self.0 == other.0 {
            bytes_precede_exec(text_bytes(&self.1), text_bytes(&other.1))
        } else {
            false
        }
    }

    fn same_key(&self, other: &(String, String)) -> (r: bool) {
        self.0 == other.0 && self.1 == other.1
    }

    fn copy_key(&self) -> (r: (String, String)) {
        (self.0.clone(), self.1.clone())
    }
}

/// Deposits, keyed by (collection, owner, token id); the collection and the
/// owner are written with a length prefix.
impl StoreKey for (String, String, String) {
    open spec fn precedes(
        a: (Seq<char>, Seq<char>, Seq<char>),
        b: (Seq<char>, Seq<char>, Seq<char>),
    ) -> bool {
        ||| sized_precede(utf8(a.0), utf8(b.0))
        ||| (a.0 == b.0 && sized_precede(utf8(a.1), utf8(b.1)))
        ||| (a.0 == b.0 && a.1 == b.1 && bytes_precede(utf8(a.2), utf8(b.2)))
    }

    proof fn lemma_irreflexive(a: (Seq<char>, Seq<char>, Seq<char>)) {
        lemma_sized_irreflexive(utf8(a.0));
        lemma_sized_irreflexive(utf8(a.1));
        lemma_bytes_irreflexive(utf8(a.2));
    }

    proof fn lemma_transitive(
        a: (Seq<char>, Seq<char>, Seq<char>),
        b: (Seq<char>, Seq<char>, Seq<char>),
        c: (Seq<char>, Seq<char>, Seq<char>),
    ) {
        if sized_precede(utf8(a.0), utf8(b.0)) && sized_precede(utf8(b.0), utf8(c.0)) {
            lemma_sized_transitive(utf8(a.0), utf8(b.0), utf8(c.0));
        }
        if a.0 == b.0 && b.0 == c.0 {
            lemma_sized_irreflexive(utf8(a.0));
        }
        if a.0 == b.0 && b.0 == c.0 && sized_precede(utf8(a.1), utf8(b.1)) && sized_precede(
            utf8(b.1),
            utf8(c.1),
        ) {
            lemma_sized_transitive(utf8(a.1), utf8(b.1), utf8(c.1));
        }
        if a.0 == b.0 && b.0 == c.0 && a.1 == b.1 && b.1 == c.1 {
            lemma_sized_irreflexive(utf8(a.0));
            lemma_sized_irreflexive(utf8(a.1));
            lemma_bytes_transitive(utf8(a.2), utf8(b.2), utf8(c.2));
        }
    }

    proof fn lemma_total(a: (Seq<char>, Seq<char>, Seq<char>), b: (Seq<char>, Seq<char>, Seq<char>)) {
        if a.0 != b.0 {
            if utf8(a.0) == utf8(b.0) {
                lemma_utf8_injective(a.0, b.0);
            }
            lemma_sized_total(utf8(a.0), utf8(b.0));
        } else if a.1 != b.1 {
            if utf8(a.1) == utf8(b.1) {
                lemma_utf8_injective(a.1, b.1);
            }
            lemma_sized_total(utf8(a.1), utf8(b.1));
        } else {
            if utf8(a.2) == utf8(b.2) {
                lemma_utf8_injective(a.2, b.2);
            }
            lemma_bytes_total(utf8(a.2), utf8(b.2));
        }
    }

    fn precedes_exec(&self, other: &(String, String, String)) -> (r: bool) {
        if sized_precede_exec(&self.0, &other.0) {
            true
        } else if self.0 != other.0 {
            false
        } else if sized_precede_exec(&self.1, &other.1) {
            true
        } else if self.1 != other.1 {
            false
        } else {
            bytes_precede_exec(text_bytes(&self.2), text_bytes(&other.2))
        }
    }

    fn same_key(&self, other: &(String, String, String)) -> (r: bool) {
        self.0 == other.0 && self.1 == other.1 && self.2 == other.2
    }

    fn copy_key(&self) -> (r: (String, String, String)) {
        (self.0.clone(), self.1.clone(), self.2.clone())
    }
}

/// Viewing rights, keyed by (video id, viewer address).
impl StoreKey for (u64, String) {
    open spec fn precedes(a: (u64, Seq<char>), b: (u64, Seq<char>)) -> bool {
        a.0 < b.0 || (a.0 == b.0 && bytes_precede(utf8(a.1), utf8(b.1)))
    }

    proof fn lemma_irreflexive(a: (u64, Seq<char>)) {
        lemma_bytes_irreflexive(utf8(a.1));
    }

    proof fn lemma_transitive(a: (u64, Seq<char>), b: (u64, Seq<char>), c: (u64, Seq<char>)) {
        if a.0 == b.0 && b.0 == c.0 {
            lemma_bytes_transitive(utf8(a.1), utf8(b.1), utf8(c.1));
        }
    }

    proof fn lemma_total(a: (u64, Seq<char>), b: (u64, Seq<char>)) {
        if a.0 == b.0 {
            if utf8(a.1) == utf8(b.1) {
                lemma_utf8_injective(a.1, b.1);
            }
            lemma_bytes_total(utf8(a.1), utf8(b.1));
        }
    }

    fn precedes_exec(&self, other: &(u64, String)) -> (r: bool) {
        if self.0 != other.0 {
            self.0 < other.0
        } else {
            bytes_precede_exec(text_bytes(&self.1), text_bytes(&other.1))
        }
    }

    fn same_key(&self, other: &(u64, String)) -> (r: bool) {
        self.0 == other.0 && self.1 == other.1
    }

    fn copy_key(&self) -> (r: (u64, String)) {
        (self.0, self.1.clone())
    }
}

/// Video ids, listed in ascending numeric order.
impl StoreKey for u64 {
    open spec fn precedes(a: u64, b: u64) -> bool {
        a < b
    }

    proof fn lemma_irreflexive(a: u64) {
    }

    proof fn lemma_transitive(a: u64, b: u64, c: u64) {
    }

    proof fn lemma_total(a: u64, b: u64) {
    }

    fn precedes_exec(&self, other: &u64) -> (r: bool) {
        *self < *other
    }

    fn same_key(&self, other: &u64) -> (r: bool) {
        *self == *other
    }

    fn copy_key(&self) -> (r: u64) {
        *self
    }
}

} // verus!
