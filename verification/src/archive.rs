//! Entry naming and safety for the workspace archive. Packing stores each
//! file under its path relative to the workspace root; unpacking accepts an
//! entry only when its name is relative and free of parent-directory
//! segments, and then materializes it under the new workspace root. The
//! byte copying itself is plain I/O and stays with the caller.

use vstd::prelude::*;

use crate::textops::{
    has_dotdot, has_dotdot_component, is_prefix, normalize_seps, normalize_separators,
    str_contains_dotdot_component, str_has_prefix,
};
use vstd::string::StrSliceExecFns;
use vstd::string::StringExecFns;

verus! {

/// The archive entry name of a file inside the workspace: its path relative
/// to the workspace root, with path separators normalized to the canonical
/// `/` whatever the host platform wrote. Nothing outside the root is ever
/// packed.
pub fn zip_entry_name(workspace_dir: &str, file_path: &str) -> (r: Option<String>)
    ensures
        r is Some <==> is_prefix(workspace_dir@ + "/"@, file_path@),
        r is Some ==> r->0@ == normalize_seps(
            file_path@.skip(workspace_dir@.len() as int + 1),
        ),
{
    let mut prefix: String = workspace_dir.to_owned();
    prefix.append("/");
    if !str_has_prefix(file_path, prefix.as_str()) {
        return None;
    }
    let np = prefix.unicode_len();
    let n = file_path.unicode_len();
    let rel = normalize_separators(file_path.substring_char(np, n));
    proof {
        broadcast use vstd::string::group_string_axioms;

        reveal_strlit("/");
        assert("/"@.len() == 1);
        assert(np == workspace_dir@.len() + 1);
        assert(file_path@.subrange(np as int, n as int) =~= file_path@.skip(
            workspace_dir@.len() as int + 1,
        ));
    }
    Some(rel)
}

/// An entry name an unpack accepts: non-empty, relative, and without any
/// parent-directory segment.
pub open spec fn entry_name_safe(n: Seq<char>) -> bool {
    n.len() > 0 && n[0] != '/' && !has_dotdot_component(n)
}

/// Where an unpack materializes a safe entry: under the new workspace root,
/// at the entry's own relative path. An unsafe name gets no destination.
pub open spec fn spec_entry_dest(workspace_dir: Seq<char>, n: Seq<char>) -> Option<Seq<char>> {
    if entry_name_safe(n) {
        Some(workspace_dir + "/"@ + n)
    } else {
        None
    }
}

/// Decide one archive entry: the destination path when the name is safe,
/// nothing when it is not (the caller skips such an entry rather than
/// aborting the unpack).
pub fn safe_entry_dest(workspace_dir: &str, name: &str) -> (r: Option<String>)
    ensures
        r is Some <==> entry_name_safe(name@),
        r is Some ==> r->0@ == workspace_dir@ + "/"@ + name@,
{
    let n = name.unicode_len();
    if n == 0 {
        return None;
    }
    if name.get_char(0) == '/' {
        return None;
    }
    if str_contains_dotdot_component(name) {
        return None;
    }
    let mut dest: String = workspace_dir.to_owned();
    dest.append("/");
    dest.append(name);
    Some(dest)
}

/// A directory entry: the name ends in the separator.
pub fn is_dir_entry(name: &str) -> (r: bool)
    ensures
        r == (name@.len() > 0 && name@.last() == '/'),
{
    let n = name.unicode_len();
    n > 0 && name.get_char(n - 1) == '/'
}

/// The parent directory of a path: the part before the last `/`; nothing
/// when the path has no separator left.
pub fn parent_dir(p: &str) -> (r: Option<String>)
    ensures
        r is Some <==> crate::fsplan::after_last_slash(p@).len() < p@.len(),
        r is Some ==> r->0@ == p@.take(
            p@.len() - crate::fsplan::after_last_slash(p@).len() - 1,
        ),
{
    let name = crate::fsplan::file_name_part(p);
    let nl = name.unicode_len();
    let n = p.unicode_len();
    proof {
        lemma_after_last_slash_len(p@);
    }
    if nl == n {
        return None;
    }
    Some(p.substring_char(0, n - nl - 1).to_owned())
}

/// The part after the last separator is never longer than the whole path.
proof fn lemma_after_last_slash_len(p: Seq<char>)
    ensures
        crate::fsplan::after_last_slash(p).len() <= p.len(),
    decreases p.len(),
{
    if p.len() > 0 && p.last() != '/' {
        lemma_after_last_slash_len(p.drop_last());
    }
}

/// A relative name cut out of a path that is free of `..` anywhere stays,
/// after separator normalization, free of `..` segments: packing a
/// workspace whose file paths carry no parent-directory marker yields only
/// entries an unpack accepts.
pub proof fn lemma_clean_path_clean_entry(prefix: Seq<char>, raw: Seq<char>)
    requires
        !has_dotdot(prefix + raw),
    ensures
        !has_dotdot_component(normalize_seps(raw)),
{
    let rel = normalize_seps(raw);
    if has_dotdot_component(rel) {
        let i = choose|i: int|
            0 <= i && i + 2 <= rel.len() && #[trigger] rel[i] == '.' && rel[i + 1] == '.' && (i
                == 0 || rel[i - 1] == '/') && (i + 2 == rel.len() || rel[i + 2] == '/');
        assert(raw[i] == '.' && raw[i + 1] == '.');
        assert((prefix + raw)[prefix.len() + i] == '.');
        assert((prefix + raw)[prefix.len() + i + 1] == '.');
    }
}

/// Pack/unpack fidelity, the name side: every entry name a pack writes —
/// relative, and free of parent-directory segments when the packed paths
/// were — is accepted by the unpack and lands under the new workspace root
/// at the entry's own relative path.
pub proof fn lemma_pack_entry_round_trip(rel: Seq<char>, new_dir: Seq<char>)
    requires
        rel.len() > 0,
        rel[0] != '/',
        !has_dotdot_component(rel),
    ensures
        spec_entry_dest(new_dir, rel) == Some(new_dir + "/"@ + rel),
        is_prefix(new_dir + "/"@, spec_entry_dest(new_dir, rel)->0),
{
    assert((new_dir + "/"@ + rel).subrange(0, (new_dir + "/"@).len() as int) =~= new_dir + "/"@);
}

} // verus!
