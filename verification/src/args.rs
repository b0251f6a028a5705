//! The fixed argument shapes handed to the external secret store, and
//! the text of the overwrite prompt.

use vstd::prelude::*;

verus! {

/// The store addresses every record under this namespace prefix.
pub open spec fn spec_store_path(secret: Seq<char>) -> Seq<char> {
    "password-store/"@ + secret
}

/// Arguments of the store's read command: the payload of the named
/// record is written to the process's standard output.
pub open spec fn spec_read_args(secret: Seq<char>) -> Seq<Seq<char>> {
    seq!["read"@, "-field=data"@, spec_store_path(secret)]
}

/// Arguments of the store's write command: the payload is consumed
/// from the process's standard input.
pub open spec fn spec_write_args(secret: Seq<char>) -> Seq<Seq<char>> {
    seq!["write"@, spec_store_path(secret), "data=-"@]
}

/// The question put to the operator before an existing record is
/// overwritten.
pub open spec fn spec_overwrite_prompt(secret: Seq<char>) -> Seq<char> {
    "A password already exists for \""@ + secret + "\". Overwrite?"@
}

/// The store path for a secret name: the namespace prefix followed by
/// the name.
pub fn store_path(secret: &str) -> (r: String)
    ensures
        r@ == spec_store_path(secret@),
{
    let prefix: String = String::from_str("password-store/");
    prefix.concat(secret)
}

pub fn read_args(secret: &str) -> (r: Vec<String>)
    ensures
        r.deep_view() == spec_read_args(secret@),
{
    let mut r: Vec<String> = Vec::new();
    r.push(String::from_str("read"));
    r.push(String::from_str("-field=data"));
    r.push(store_path(secret));
    proof {
        assert(r.deep_view() =~= spec_read_args(secret@));
    }
    r
}

pub fn write_args(secret: &str) -> (r: Vec<String>)
    ensures
        r.deep_view() == spec_write_args(secret@),
{
    let mut r: Vec<String> = Vec::new();
    r.push(String::from_str("write"));
    r.push(store_path(secret));
    r.push(String::from_str("data=-"));
    proof {
        assert(r.deep_view() =~= spec_write_args(secret@));
    }
    r
}

pub fn overwrite_prompt(secret: &str) -> (r: String)
    ensures
        r@ == spec_overwrite_prompt(secret@),
{
    let head: String = String::from_str("A password already exists for \"");
    head.concat(secret).concat("\". Overwrite?")
}

} // verus!
