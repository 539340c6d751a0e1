//! The exclusion set: basenames that the scanner must never track and the
//! server must never serve, held in a `trie_hard::TrieHard` and tested by
//! exact byte-for-byte match.

use vstd::prelude::*;
use vstd::string::StringSliceAdditionalSpecFns;
use trie_hard::TrieHard;

verus! {

#[verifier::external_type_specification]
#[verifier::external_body]
#[verifier::reject_recursive_types(T)]
pub struct ExTrieHard<'a, T>(TrieHard<'a, T>);

/// The set of byte keys a `TrieHard` was built with.
pub uninterp spec fn trie_keys(t: &TrieHard<'static, &'static str>) -> Set<Seq<u8>>;

/// Relies on `trie_hard::TrieHard::from_iter` (which calls `TrieHard::new`):
/// the trie built from a list of strings holds exactly the UTF-8 byte keys of
/// those strings. Empty keys are kept out as `TrieHard::new` documents no
/// behaviour for them.
#[verifier::external_body]
fn trie_from_names(names: &Vec<&'static str>) -> (t: TrieHard<'static, &'static str>)
    requires
        forall|i: int| 0 <= i < names@.len() ==> names@[i]@.len() > 0,
    ensures
        trie_keys(&t) == (Set::new(
            |k: Seq<u8>| exists|i: int| 0 <= i < names@.len() && names@[i].spec_bytes() == k,
        )),
{
    names.iter().copied().collect()
}

/// Relies on `trie_hard::TrieHard::get_from_bytes`: returns `Some` exactly
/// when the key is one of the byte keys the trie was built with.
#[verifier::external_body]
fn trie_get(t: &TrieHard<'static, &'static str>, key: &[u8]) -> (r: Option<&'static str>)
    ensures
        r.is_some() == trie_keys(t).contains(key@),
{
    t.get_from_bytes(key)
}

/// The basenames that are excluded from scanning and serving.
pub open spec fn excluded_names() -> Set<Seq<u8>> {
    set![
        ".DS_Store".spec_bytes(),
        ".git".spec_bytes(),
        ".htaccess".spec_bytes(),
        ".gitignore".spec_bytes(),
    ]
}

/// Files and directories to be excluded based on file names.
///
/// These include metadata files of no interest, as well as files which may
/// leak sensitive information: `.DS_Store`, `.git`, `.htaccess`, `.gitignore`.
pub fn exclude() -> (t: TrieHard<'static, &'static str>)
    ensures
        trie_keys(&t) == excluded_names(),
{
    let names: Vec<&'static str> = vec![".DS_Store", ".git", ".htaccess", ".gitignore"];
    proof {
        reveal_strlit(".DS_Store");
        reveal_strlit(".git");
        reveal_strlit(".htaccess");
        reveal_strlit(".gitignore");
        assert(names@[0]@.len() > 0 && names@[1]@.len() > 0 && names@[2]@.len() > 0 && names@[3]@
            .len() > 0);
    }
    let t = trie_from_names(&names);
    proof {
        assert forall|k: Seq<u8>| trie_keys(&t).contains(k) implies excluded_names().contains(
            k,
        ) by {
            let i = choose|i: int|
                0 <= i < names@.len() && names@[i].spec_bytes() == k;
            assert(excluded_names().contains(names@[i].spec_bytes()));
        }
        assert forall|k: Seq<u8>| excluded_names().contains(k) implies trie_keys(&t).contains(
            k,
        ) by {
            if k == ".DS_Store".spec_bytes() {
                assert(names@[0].spec_bytes() == k);
            } else if k == ".git".spec_bytes() {
                assert(names@[1].spec_bytes() == k);
            } else if k == ".htaccess".spec_bytes() {
                assert(names@[2].spec_bytes() == k);
            } else {
                assert(names@[3].spec_bytes() == k);
            }
        }
        assert(trie_keys(&t) =~= excluded_names());
    }
    t
}

/// The excluded basenames, byte for byte, so that membership of a concrete
/// name can be decided in proofs.
pub proof fn lemma_excluded_names_bytes()
    ensures
        excluded_names() =~= set![
            seq![46u8, 68u8, 83u8, 95u8, 83u8, 116u8, 111u8, 114u8, 101u8],
            seq![46u8, 103u8, 105u8, 116u8],
            seq![46u8, 104u8, 116u8, 97u8, 99u8, 99u8, 101u8, 115u8, 115u8],
            seq![46u8, 103u8, 105u8, 116u8, 105u8, 103u8, 110u8, 111u8, 114u8, 101u8],
        ],
{
    broadcast use vstd::string::is_ascii_spec_bytes;

    reveal_strlit(".DS_Store");
    reveal_strlit(".git");
    reveal_strlit(".htaccess");
    reveal_strlit(".gitignore");
    assert(vstd::string::is_ascii(".DS_Store"));
    assert(vstd::string::is_ascii(".git"));
    assert(vstd::string::is_ascii(".htaccess"));
    assert(vstd::string::is_ascii(".gitignore"));
    assert(".DS_Store".spec_bytes() =~= seq![
        46u8,
        68u8,
        83u8,
        95u8,
        83u8,
        116u8,
        111u8,
        114u8,
        101u8,
    ]);
    assert(".git".spec_bytes() =~= seq![46u8, 103u8, 105u8, 116u8]);
    assert(".htaccess".spec_bytes() =~= seq![
        46u8,
        104u8,
        116u8,
        97u8,
        99u8,
        99u8,
        101u8,
        115u8,
        115u8,
    ]);
    assert(".gitignore".spec_bytes() =~= seq![
        46u8,
        103u8,
        105u8,
        116u8,
        105u8,
        103u8,
        110u8,
        111u8,
        114u8,
        101u8,
    ]);
}

/// Exact-match membership test of one basename against the exclusion set.
pub fn is_excluded(t: &TrieHard<'static, &'static str>, name: &[u8]) -> (r: bool)
    ensures
        r == trie_keys(t).contains(name@),
{
    trie_get(t, name).is_some()
}

} // verus!
