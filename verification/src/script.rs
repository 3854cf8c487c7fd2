//! The scripts that the shell evaluates in the page.
//!
//! A script is text; what it does when the page runs it is outside this
//! library. The rules that the scripts follow are stated in `eviction` and in
//! `render`.

use crate::eviction::{tiles_bucket, tiles_bucket_name};
use vstd::prelude::*;
use vstd::string::{StrSliceExecFns, StringExecFns};

verus! {

/// The eviction script up to the name of the tiles bucket: unregister every
/// worker, then walk the buckets.
pub open spec fn eviction_head() -> Seq<char> {
    "(async()=>{var c=false;if('serviceWorker'in navigator){var r=await navigator.serviceWorker.getRegistrations();for(var i=0;i<r.length;i++){await r[i].unregister();c=true;}}if('caches'in window){var k=await caches.keys();for(var i=0;i<k.length;i++){if(k[i]!=='"@
}

/// The eviction script after the name of the tiles bucket: delete the other
/// buckets, then reload once per session if anything changed.
pub open spec fn eviction_tail() -> Seq<char> {
    "'){await caches.delete(k[i]);c=true;}}}if(c&&!sessionStorage.__tc){sessionStorage.__tc='1';location.reload();}})();"@
}

/// The text of the eviction script.
pub open spec fn eviction_text() -> Seq<char> {
    eviction_head() + tiles_bucket() + eviction_tail()
}

/// The script that evicts stale workers and buckets from the page. It names
/// the tiles bucket, the one bucket that it spares.
pub fn eviction_script() -> (script: String)
    ensures
        script@ == eviction_text(),
{
    let mut script = String::from_str(
        "(async()=>{var c=false;if('serviceWorker'in navigator){var r=await navigator.serviceWorker.getRegistrations();for(var i=0;i<r.length;i++){await r[i].unregister();c=true;}}if('caches'in window){var k=await caches.keys();for(var i=0;i<k.length;i++){if(k[i]!=='",
    );
    let tiles = tiles_bucket_name();
    script.append(tiles.as_str());
    script.append(
        "'){await caches.delete(k[i]);c=true;}}}if(c&&!sessionStorage.__tc){sessionStorage.__tc='1';location.reload();}})();",
    );
    script
}

/// Whether a character can stand in an element id that the render check
/// writes into its script: a letter or digit of ASCII, a hyphen or an
/// underscore. None of them needs escaping inside a quoted string.
pub open spec fn id_char(c: char) -> bool {
    ||| 'a' <= c <= 'z'
    ||| 'A' <= c <= 'Z'
    ||| '0' <= c <= '9'
    ||| c == '-'
    ||| c == '_'
}

/// Whether the render check can look for an element by this id: the id is
/// not empty and made of such characters only.
pub open spec fn id_ok(id: Seq<char>) -> bool {
    id.len() > 0 && forall|i: int| 0 <= i < id.len() ==> id_char(#[trigger] id[i])
}

/// The render check script up to the id of the root element.
pub open spec fn render_check_head() -> Seq<char> {
    "(()=>{var e=document.getElementById('"@
}

/// The render check script after the id: reload if the element is missing
/// or empty.
pub open spec fn render_check_tail() -> Seq<char> {
    "');if(!e||!e.hasChildNodes()){location.reload();}})();"@
}

/// The text of the render check script for a root element.
pub open spec fn render_check_text(root_id: Seq<char>) -> Seq<char> {
    render_check_head() + root_id + render_check_tail()
}

/// Whether a character can stand in an element id.
fn is_id_char(c: char) -> (yes: bool)
    ensures
        yes == id_char(c),
{
    ('a' <= c && c <= 'z') || ('A' <= c && c <= 'Z') || ('0' <= c && c <= '9') || c == '-' || c
        == '_'
}

/// Whether the render check can look for an element by this id.
pub fn is_id_ok(id: &str) -> (yes: bool)
    ensures
        yes == id_ok(id@),
{
    let n: usize = id.unicode_len();
    if n == 0 {
        return false;
    }
    let mut i: usize = 0;
    while i < n
        invariant
            i <= n,
            n == id@.len(),
            forall|k: int| 0 <= k < i ==> id_char(#[trigger] id@[k]),
        decreases n - i,
    {
        if !is_id_char(id.get_char(i)) {
            return false;
        }
        i += 1;
    }
    true
}

/// The script that reloads the page unless the element with the given id is
/// there and has content. An id that is empty, or holds a character that
/// would have to be escaped, gives no script.
pub fn render_check_script(root_id: &str) -> (script: Option<String>)
    ensures
        script is Some <==> id_ok(root_id@),
        script matches Some(text) ==> text@ == render_check_text(root_id@),
{
    if is_id_ok(root_id) {
        let mut text = String::from_str("(()=>{var e=document.getElementById('");
        text.append(root_id);
        text.append("');if(!e||!e.hasChildNodes()){location.reload();}})();");
        Some(text)
    } else {
        None
    }
}

/// An id that the render check accepts holds no quote, no backslash and no
/// line break, so it stands in the script's quoted string as itself and
/// cannot end the string early.
pub proof fn law_accepted_id_needs_no_escape(id: Seq<char>, i: int)
    requires
        id_ok(id),
        0 <= i < id.len(),
    ensures
        id[i] != '\'' && id[i] != '"' && id[i] != '\\' && id[i] != '\n' && id[i] != '\r',
{
}

} // verus!
