//! Resolving a user-supplied key specification into signing key material.
//!
//! A key specification is either absent (the call proceeds unsigned), a path
//! to stored key material, or a mnemonic phrase. Which of the three applies
//! is decided here; deriving a keypair from a mnemonic is the business of an
//! outside derivation function, whose textual output is assembled into the
//! final 64-byte buffer by [`keypair_from_derived`].

use vstd::prelude::*;
use crate::hexcodec::{hex_ok, hex_decode_seq, hex_decode};

verus! {

/// The number of spaces in a string.
pub open spec fn space_count(s: Seq<char>) -> nat
    decreases s.len(),
{
    if s.len() == 0 {
        0
    } else {
        space_count(s.drop_last()) + if s.last() == ' ' { 1nat } else { 0nat }
    }
}

/// How many tokens splitting on the space character yields: one more than the
/// number of spaces, since `str::split(' ')` keeps empty tokens.
pub open spec fn space_token_count(s: Seq<char>) -> nat {
    space_count(s) + 1
}

/// The route the loader takes for one key specification.
#[derive(Clone, Copy, PartialEq, Eq, Structural, Debug)]
pub enum KeySpecPath {
    /// No specification was given: the call proceeds without a keypair.
    NoKeys,
    /// Treat the specification as a path to stored key material.
    StoredKeyFile,
    /// Treat the specification as a mnemonic phrase to derive from.
    MnemonicPhrase,
}

/// The route taken for a present specification: the stored-file route when
/// splitting on spaces yields no token at all, the mnemonic route otherwise.
pub open spec fn spec_classify_present(s: Seq<char>) -> KeySpecPath {
    if space_token_count(s) == 0 {
        KeySpecPath::StoredKeyFile
    } else {
        KeySpecPath::MnemonicPhrase
    }
}

proof fn lemma_space_count_take_step(s: Seq<char>, i: int)
    requires
        0 <= i < s.len(),
    ensures
        space_count(s.take(i + 1)) == space_count(s.take(i)) + if s[i] == ' ' {
            1nat
        } else {
            0nat
        },
{
    assert(s.take(i + 1).drop_last() =~= s.take(i));
    assert(s.take(i + 1).last() == s[i]);
}

fn count_spaces(s: &str) -> (n: usize)
    ensures
        n as nat == space_count(s@),
{
    let len = s.unicode_len();
    let mut n: usize = 0;
    let mut i: usize = 0;
    while i < len
        invariant
            i <= len,
            len == s@.len(),
            n <= i,
            n as nat == space_count(s@.take(i as int)),
        decreases len - i,
    {
        let c = s.get_char(i);
        proof {
            lemma_space_count_take_step(s@, i as int);
        }
        if c == ' ' {
            n = n + 1;
        }
        i = i + 1;
    }
    proof {
        assert(s@.take(len as int) =~= s@);
    }
    n
}

/// Decide which route the loader takes for a key specification, by the token
/// count that splitting the specification on spaces yields.
pub fn classify_key_spec(keys: &Option<String>) -> (p: KeySpecPath)
    ensures
        keys is None ==> p == KeySpecPath::NoKeys,
        (keys matches Some(s) ==> p == spec_classify_present(s@)),
{
    match keys {
        None => KeySpecPath::NoKeys,
        Some(s) => {
            let spaces = count_spaces(s.as_str());
            let tokens: u128 = spaces as u128 + 1;
            if tokens == 0 {
                KeySpecPath::StoredKeyFile
            } else {
                KeySpecPath::MnemonicPhrase
            }
        },
    }
}

/// Splitting any string on spaces yields at least one token, so a present
/// key specification always takes the mnemonic route: the stored-file route
/// is unreachable, whatever the specification holds.
pub proof fn lemma_present_spec_takes_mnemonic_path(s: Seq<char>)
    ensures
        space_token_count(s) >= 1,
        spec_classify_present(s) == KeySpecPath::MnemonicPhrase,
{
}

/// The textual output of the outside mnemonic-to-keypair derivation: the two
/// key halves, each rendered in hexadecimal.
pub struct DerivedKeys {
    /// Hex rendering of the public half.
    pub public: String,
    /// Hex rendering of the secret half.
    pub secret: String,
}

/// Assemble the 64-byte signing buffer from a derived pair, laid out as
/// 32 private bytes followed by 32 public bytes.
///
/// Both halves are decoded from the pair's public component; the secret
/// component is never consulted, so the private half of the buffer duplicates
/// the public bytes. The contract pins this behaviour down exactly.
pub fn keypair_from_derived(pair: &DerivedKeys) -> (r: Result<Vec<u8>, String>)
    requires
        hex_ok(pair.public@) ==> pair.public@.len() == 64,
    ensures
        r is Ok <==> hex_ok(pair.public@),
        (r matches Ok(buf) ==> {
            &&& buf@.len() == 64
            &&& buf@.subrange(0, 32) == hex_decode_seq(pair.public@)
            &&& buf@.subrange(32, 64) == hex_decode_seq(pair.public@)
        }),
        (r matches Err(m) ==> "failed to decode public key: "@.is_prefix_of(m@)),
{
    let public_vec = match hex_decode(pair.public.as_str()) {
        Ok(v) => v,
        Err(e) => {
            let prefix = "failed to decode public key: ".to_owned();
            let ghost prefix_view = prefix@;
            let msg = prefix.concat(e.as_str());
            proof {
                assert(prefix_view.is_prefix_of(msg@));
            }
            return Err(msg);
        },
    };
    let private_vec = match hex_decode(pair.public.as_str()) {
        Ok(v) => v,
        Err(e) => {
            let msg = "failed to decode private key: ".to_owned().concat(e.as_str());
            return Err(msg);
        },
    };
    let ghost half = hex_decode_seq(pair.public@);
    let mut buffer = private_vec;
    let mut public_tail = public_vec;
    buffer.append(&mut public_tail);
    proof {
        assert(buffer@.subrange(0, 32) =~= half);
        assert(buffer@.subrange(32, 64) =~= half);
    }
    Ok(buffer)
}

} // verus!
