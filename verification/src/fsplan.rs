//! Path logic of the workspace filesystem manager. Every decision — which
//! paths to touch, which requests to reject — is made here on plain strings;
//! the caller performs the actual directory and file operations and feeds
//! results back in.

use vstd::prelude::*;

use crate::errors::WsError;
use crate::textops::{
    has_dotdot_component, is_prefix, lex_sorted, sort_strings, str_contains_dotdot_component,
    str_eq, str_has_prefix, views_of,
};
use vstd::string::StrSliceExecFns;
use vstd::string::StringExecFns;

verus! {

/// The default specification document, written verbatim into a fresh
/// workspace and substituted when the specification file is missing.
pub open spec fn spec_default_spec_toml() -> Seq<char> {
    "stack-size = 1\nsource-image = \"\"\n\n[layout]\ngrid-size = [1, 1]\ngap = 0\nmargin = 0\n\n[[texts]]\ntemplate = \"Sample Text\"\nposition = [10, 10]\nsize = 24\ncolor = \"black\"\n"@
}

/// The default specification document as text.
pub fn default_spec_toml() -> (r: String)
    ensures
        r@ == spec_default_spec_toml(),
{
    String::from_str(
        "stack-size = 1\nsource-image = \"\"\n\n[layout]\ngrid-size = [1, 1]\ngap = 0\nmargin = 0\n\n[[texts]]\ntemplate = \"Sample Text\"\nposition = [10, 10]\nsize = 24\ncolor = \"black\"\n",
    )
}

/// Where a workspace's specification file lives.
pub fn spec_path_for(workspace_dir: &str) -> (r: String)
    ensures
        r@ == workspace_dir@ + "/spec.toml"@,
{
    let mut p: String = workspace_dir.to_owned();
    p.append("/spec.toml");
    p
}

/// The two asset folders every workspace carries, as absolute paths.
pub fn workspace_layout_dirs(workspace_dir: &str) -> (r: Vec<String>)
    ensures
        r@.len() == 2,
        r@[0]@ == workspace_dir@ + "/images"@,
        r@[1]@ == workspace_dir@ + "/fonts"@,
{
    let mut images: String = workspace_dir.to_owned();
    images.append("/images");
    let mut fonts: String = workspace_dir.to_owned();
    fonts.append("/fonts");
    let mut r: Vec<String> = Vec::new();
    r.push(images);
    r.push(fonts);
    r
}

/// The text a spec read yields: the file's contents when the file exists,
/// the built-in default document when it does not.
pub fn spec_text_or_default(content: Option<String>) -> (r: String)
    ensures
        content is Some ==> r@ == content->0@,
        content is None ==> r@ == spec_default_spec_toml(),
{
    match content {
        Some(text) => text,
        None => default_spec_toml(),
    }
}

/// The enumerated asset categories.
pub open spec fn spec_valid_category(c: Seq<char>) -> bool {
    c == "images"@ || c == "fonts"@
}

/// Category check: only `images` and `fonts` are accepted.
pub fn is_valid_category(category: &str) -> (r: bool)
    ensures
        r == spec_valid_category(category@),
{
    str_eq(category, "images") || str_eq(category, "fonts")
}

/// The part of a path after its last `/`; empty when the path ends in `/`.
pub open spec fn after_last_slash(p: Seq<char>) -> Seq<char>
    decreases p.len(),
{
    if p.len() == 0 {
        p
    } else if p.last() == '/' {
        Seq::empty()
    } else {
        after_last_slash(p.drop_last()).push(p.last())
    }
}

/// Extract the file name component of a path.
pub fn file_name_part(p: &str) -> (r: String)
    ensures
        r@ == after_last_slash(p@),
{
    let n = p.unicode_len();
    let mut start: usize = 0;
    let mut i: usize = 0;
    proof {
        assert(p@.take(0) =~= Seq::<char>::empty());
        assert(after_last_slash(p@.take(0)) =~= p@.subrange(0, 0));
    }
    while i < n
        invariant
            n == p@.len(),
            0 <= start <= i <= n,
            after_last_slash(p@.take(i as int)) == p@.subrange(start as int, i as int),
        decreases n - i,
    {
        let c = p.get_char(i);
        proof {
            let t = p@.take(i as int + 1);
            assert(t.drop_last() =~= p@.take(i as int));
            assert(t.last() == p@[i as int]);
            if p@[i as int] != '/' {
                assert(after_last_slash(t) == after_last_slash(p@.take(i as int)).push(
                    p@[i as int],
                ));
                assert(p@.subrange(start as int, i as int).push(p@[i as int]) =~= p@.subrange(
                    start as int,
                    i as int + 1,
                ));
            } else {
                assert(after_last_slash(t) =~= p@.subrange(i as int + 1, i as int + 1));
            }
        }
        if c == '/' {
            start = i + 1;
        }
        i += 1;
    }
    proof {
        assert(p@.take(n as int) =~= p@);
    }
    p.substring_char(start, n).to_owned()
}

/// The plan for adding an asset file: where to copy it and the relative
/// path to report back.
pub struct AddFilePlan {
    /// The file's own name, taken from the source path.
    pub filename: String,
    /// The category folder to create if missing, `directory/category`.
    pub dest_dir: String,
    /// The copy destination, `directory/category/filename`.
    pub dest_path: String,
    /// The path reported to the caller, `category/filename`.
    pub rel_path: String,
}

/// Decide an asset addition. Rejected are: a category outside the
/// enumerated set, and a source path whose final component is empty or a
/// parent-directory marker.
pub fn plan_add_file(workspace_dir: &str, src_path: &str, category: &str) -> (r: Result<
    AddFilePlan,
    WsError,
>)
    ensures
        !spec_valid_category(category@) <==> r is Err && r->Err_0 is InvalidCategory,
        r is Err && r->Err_0 is InvalidPath <==> spec_valid_category(category@) && (
        after_last_slash(src_path@).len() == 0 || after_last_slash(src_path@) == ".."@),
        r is Ok ==> {
            &&& r->Ok_0.filename@ == after_last_slash(src_path@)
            &&& r->Ok_0.dest_dir@ == workspace_dir@ + "/"@ + category@
            &&& r->Ok_0.dest_path@ == workspace_dir@ + "/"@ + category@ + "/"@ + after_last_slash(
                src_path@,
            )
            &&& r->Ok_0.rel_path@ == category@ + "/"@ + after_last_slash(src_path@)
        },
        r is Err ==> r->Err_0 is InvalidCategory || r->Err_0 is InvalidPath,
{
    if !is_valid_category(category) {
        return Err(WsError::InvalidCategory);
    }
    let filename = file_name_part(src_path);
    if filename.as_str().is_empty() || str_eq(filename.as_str(), "..") {
        return Err(WsError::InvalidPath);
    }
    let mut dest_dir: String = workspace_dir.to_owned();
    dest_dir.append("/");
    dest_dir.append(category);
    let mut dest_path: String = dest_dir.clone();
    dest_path.append("/");
    dest_path.append(filename.as_str());
    let mut rel_path: String = category.to_owned();
    rel_path.append("/");
    rel_path.append(filename.as_str());
    Ok(AddFilePlan { filename, dest_dir, dest_path, rel_path })
}

/// Decide an asset removal: reject any filename containing a
/// parent-directory traversal segment (two dots inside a longer name are no
/// segment), and any path that does not stay inside the chosen category
/// folder; hand back the absolute path to delete otherwise.
pub fn plan_remove_file(workspace_dir: &str, category: &str, filename: &str) -> (r: Result<
    String,
    WsError,
>)
    ensures
        r is Err && r->Err_0 is InvalidPath <==> has_dotdot_component(filename@),
        r is Err && r->Err_0 is PathEscape <==> !has_dotdot_component(filename@) && !(filename@
            == category@ || is_prefix(category@ + "/"@, filename@)),
        r is Ok <==> !has_dotdot_component(filename@) && (filename@ == category@ || is_prefix(
            category@ + "/"@,
            filename@,
        )),
        r is Ok ==> r->Ok_0@ == workspace_dir@ + "/"@ + filename@,
{
    if str_contains_dotdot_component(filename) {
        return Err(WsError::InvalidPath);
    }
    let mut cat_prefix: String = category.to_owned();
    cat_prefix.append("/");
    if !str_eq(filename, category) && !str_has_prefix(filename, cat_prefix.as_str()) {
        return Err(WsError::PathEscape);
    }
    let mut path: String = workspace_dir.to_owned();
    path.append("/");
    path.append(filename);
    Ok(path)
}

/// What each listed file name turns into: `category/name`.
pub open spec fn spec_rel_paths(category: Seq<char>, names: Seq<Seq<char>>) -> Seq<Seq<char>> {
    names.map_values(|n: Seq<char>| category + "/"@ + n)
}

/// Decide an asset listing: reject a category outside the enumerated set;
/// otherwise turn each plain file name into `category/name` and sort the
/// lot lexicographically.
pub fn plan_list_files(category: &str, names: Vec<String>) -> (r: Result<Vec<String>, WsError>)
    ensures
        r is Ok <==> spec_valid_category(category@),
        r is Err ==> r->Err_0 is InvalidCategory,
        r is Ok ==> lex_sorted(views_of(r->Ok_0@)),
        r is Ok ==> views_of(r->Ok_0@).to_multiset() == spec_rel_paths(
            category@,
            views_of(names@),
        ).to_multiset(),
        r is Ok ==> r->Ok_0@.len() == names@.len(),
{
    if !is_valid_category(category) {
        return Err(WsError::InvalidCategory);
    }
    let n = names.len();
    let mut mapped: Vec<String> = Vec::new();
    let mut i: usize = 0;
    proof {
        assert(views_of(mapped@) =~= spec_rel_paths(category@, views_of(names@)).take(0));
    }
    while i < n
        invariant
            n == names@.len(),
            0 <= i <= n,
            views_of(mapped@) == spec_rel_paths(category@, views_of(names@)).take(i as int),
        decreases n - i,
    {
        let mut entry: String = category.to_owned();
        entry.append("/");
        entry.append(names[i].as_str());
        let ghost pre = mapped@;
        mapped.push(entry);
        proof {
            assert(views_of(pre).len() == pre.len());
            assert(pre.len() == i as int);
            assert(views_of(names@)[i as int] == names@[i as int]@);
            assert(spec_rel_paths(category@, views_of(names@))[i as int] == category@ + "/"@
                + names@[i as int]@);
            assert(mapped@[i as int]@ == category@ + "/"@ + names@[i as int]@);
            assert forall|j: int| 0 <= j < i implies views_of(mapped@)[j] == spec_rel_paths(
                category@,
                views_of(names@),
            ).take(i as int + 1)[j] by {
                assert(mapped@[j] == pre[j]);
                assert(views_of(pre)[j] == pre[j]@);
            }
            assert(views_of(mapped@) =~= spec_rel_paths(category@, views_of(names@)).take(
                i as int + 1,
            ));
        }
        i += 1;
    }
    proof {
        assert(spec_rel_paths(category@, views_of(names@)).take(n as int) =~= spec_rel_paths(
            category@,
            views_of(names@),
        ));
    }
    Ok(sort_strings(mapped))
}

} // verus!
