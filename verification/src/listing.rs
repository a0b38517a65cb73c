//! Rendering a directory's immediate children as an HTML listing.
//!
//! Every entry yields one `<li>` item: a hyperlink back into the serving
//! tree when the entry's name is valid text, and a plain item showing the
//! caller-rendered representation otherwise. The hyperlink targets are
//! percent-encoded by an outside collaborator.

use vstd::prelude::*;
use vstd::string::StringExecFns;

verus! {

/// One immediate child of a directory, as observed by the caller.
pub enum EntryName {
    /// The entry's name decoded as valid text.
    Utf8(String),
    /// The entry's name is not valid text; the caller hands over its
    /// rendered raw representation instead, which is shown unlinked.
    Raw(String),
}

/// What `urlencoding::encode` returns for the given characters. The result
/// depends on the characters alone: every byte of their UTF-8 form outside
/// alphanumerics and `-`, `_`, `.`, `~` becomes a percent escape.
pub uninterp spec fn encode_of(s: Seq<char>) -> Seq<char>;

/// What std's `Debug` formatting returns for a string of the given
/// characters: the string quoted, with escapes. The result depends on the
/// characters alone.
pub uninterp spec fn str_debug_of(s: Seq<char>) -> Seq<char>;

/// Relies on `urlencoding::encode`: percent-encodes every byte except
/// alphanumerics and `-`, `_`, `.`, `~`, a function of the input alone.
#[verifier::external_body]
fn url_encode(s: &str) -> (r: String)
    ensures
        r@ == encode_of(s@),
{
    urlencoding::encode(s).into_owned()
}

/// Relies on std's `Debug` formatting for `str`: quotes and escapes the
/// characters, a function of the input alone.
#[verifier::external_body]
fn debug_quoted(s: &str) -> (r: String)
    ensures
        r@ == str_debug_of(s@),
{
    format!("{:?}", s)
}

/// One hyperlink list item with the given target and label.
pub open spec fn link_item(target: Seq<char>, label: Seq<char>) -> Seq<char> {
    "<li><a href="@ + target + ">"@ + label + "</li> "@
}

/// The "parent/self" item heading every listing: a link back to the request
/// path itself, labeled `.`.
pub open spec fn parent_item(req_path: Seq<char>) -> Seq<char> {
    link_item(encode_of(req_path), "."@)
}

/// The list item of one directory entry. A text name links to
/// `{request path}/{name}`, percent-encoded, labeled with the quoted name;
/// a raw name is shown unlinked.
pub open spec fn entry_item(req_path: Seq<char>, e: EntryName) -> Seq<char> {
    match e {
        EntryName::Utf8(name) => link_item(
            encode_of(req_path + "/"@ + name@),
            str_debug_of(name@),
        ),
        EntryName::Raw(shown) => "<li>"@ + shown@ + "</li> "@,
    }
}

/// The list items of all entries, in order.
pub open spec fn listing_items(req_path: Seq<char>, entries: Seq<EntryName>) -> Seq<char>
    decreases entries.len(),
{
    if entries.len() == 0 {
        Seq::empty()
    } else {
        listing_items(req_path, entries.drop_last()) + entry_item(req_path, entries.last())
    }
}

/// The whole listing document: the parent item, then one item per entry, in
/// the order the entries were observed.
pub open spec fn listing_html(req_path: Seq<char>, entries: Seq<EntryName>) -> Seq<char> {
    "<html><body>"@ + parent_item(req_path) + listing_items(req_path, entries)
        + "</body></html>"@
}

/// Each entry contributes exactly one list item, in order: the items of a
/// run of entries split anywhere are the items of the two halves,
/// concatenated.
pub proof fn lemma_listing_items_concat(
    req_path: Seq<char>,
    a: Seq<EntryName>,
    b: Seq<EntryName>,
)
    ensures
        listing_items(req_path, a + b) == listing_items(req_path, a) + listing_items(
            req_path,
            b,
        ),
    decreases b.len(),
{
    if b.len() == 0 {
        assert(a + b =~= a);
        assert(listing_items(req_path, a) + listing_items(req_path, b) =~= listing_items(
            req_path,
            a,
        ));
    } else {
        lemma_listing_items_concat(req_path, a, b.drop_last());
        assert((a + b).drop_last() =~= a + b.drop_last());
        assert((a + b).last() == b.last());
        assert(listing_items(req_path, a + b) =~= listing_items(req_path, a) + listing_items(
            req_path,
            b,
        ));
    }
}

/// Renders the HTML listing of a directory's entries, with hyperlinks built
/// from the request path.
pub fn render_dir_listing(req_path: &str, entries: &Vec<EntryName>) -> (r: String)
    ensures
        r@ == listing_html(req_path@, entries@),
{
    let mut items = String::new();
    let enc_req = url_encode(req_path);
    items.append("<li><a href=");
    items.append(enc_req.as_str());
    items.append(">");
    items.append(".");
    items.append("</li> ");
    proof {
        assert(items@ =~= parent_item(req_path@));
        assert(entries@.subrange(0, 0) =~= Seq::<EntryName>::empty());
    }
    let mut i: usize = 0;
    while i < entries.len()
        invariant
            i <= entries.len(),
            items@ == parent_item(req_path@) + listing_items(
                req_path@,
                entries@.subrange(0, i as int),
            ),
        decreases entries.len() - i,
    {
        match &entries[i] {
            EntryName::Utf8(name) => {
                let mut filepath = String::new();
                filepath.append(req_path);
                filepath.append("/");
                filepath.append(name.as_str());
                proof {
                    assert(filepath@ =~= req_path@ + "/"@ + name@);
                }
                let enc = url_encode(filepath.as_str());
                let label = debug_quoted(name.as_str());
                items.append("<li><a href=");
                items.append(enc.as_str());
                items.append(">");
                items.append(label.as_str());
                items.append("</li> ");
            },
            EntryName::Raw(shown) => {
                items.append("<li>");
                items.append(shown.as_str());
                items.append("</li> ");
            },
        }
        proof {
            let prefix = entries@.subrange(0, i as int);
            let next = entries@.subrange(0, i as int + 1);
            assert(next.drop_last() =~= prefix);
            assert(next.last() == entries@[i as int]);
            assert(items@ =~= parent_item(req_path@) + listing_items(req_path@, next));
        }
        i = i + 1;
    }
    proof {
        assert(entries@.subrange(0, entries@.len() as int) =~= entries@);
    }
    let mut body = String::new();
    body.append("<html><body>");
    body.append(items.as_str());
    body.append("</body></html>");
    proof {
        assert(body@ =~= listing_html(req_path@, entries@));
    }
    body
}

} // verus!
