//! The local speech model's download: where it comes from, unpacking the
//! downloaded archive into the files that are kept, and the wording of
//! download errors.
use vstd::prelude::*;
use crate::connection::concat;
use crate::text::{chars_of, push_str, str_eq, string_from_chars, trim, trim_str};

verus! {

/// Environment variable that overrides the model download URL.
pub const MODEL_TARBALL_URL_ENV: &'static str = "SENSEVOICE_MODEL_URL";
/// Where the model archive is downloaded from by default.
pub const DEFAULT_MODEL_TARBALL_URL: &'static str = "https://dtcdata.oss-cn-shanghai.aliyuncs.com/skills/changyan/sensevoice-small.tar.bz2";
/// The model weights inside the archive.
pub const MODEL_FILE_NAME: &'static str = "model.int8.onnx";
/// The token table inside the archive.
pub const TOKENS_FILE_NAME: &'static str = "tokens.txt";
/// The temporary file the archive is downloaded to.
pub const DOWNLOAD_FILE_NAME: &'static str = "download.tar.bz2";

/// The download URL: the override, trimmed, unless it is missing or blank.
pub open spec fn model_tarball_url_spec(override_url: Option<Seq<char>>) -> Seq<char> {
    match override_url {
        Some(u) => if trim(u).len() > 0 {
            trim(u)
        } else {
            DEFAULT_MODEL_TARBALL_URL@
        },
        None => DEFAULT_MODEL_TARBALL_URL@,
    }
}

/// An optional string as plain values.
pub open spec fn opt_str_view(s: Option<&str>) -> Option<Seq<char>> {
    match s {
        Some(u) => Some(u@),
        None => None,
    }
}

/// The URL to download the model from, given the override setting.
pub fn resolve_model_tarball_url(override_url: Option<&str>) -> (url: String)
    ensures
        url@ == model_tarball_url_spec(opt_str_view(override_url)),
{
    match override_url {
        Some(u) => {
            let t = trim_str(u);
            if t.as_str().is_empty() {
                DEFAULT_MODEL_TARBALL_URL.to_owned()
            } else {
                t
            }
        },
        None => DEFAULT_MODEL_TARBALL_URL.to_owned(),
    }
}

/// A download error message that names the URL it came from.
pub fn format_download_error(model_url: &str, detail: &str) -> (msg: String)
    ensures
        msg@ == detail@ + " (url: "@ + model_url@ + ")"@,
{
    let mut msg = concat(detail, " (url: ");
    push_str(&mut msg, model_url);
    push_str(&mut msg, ")");
    msg
}

/// The detail for a download answered with a non-success HTTP status.
pub fn http_failure_detail(status_text: &str) -> (detail: String)
    ensures
        detail@ == "Download failed: HTTP "@ + status_text@,
{
    concat("Download failed: HTTP ", status_text)
}

/// Whether an archive member with this file name is kept when unpacking.
pub fn is_kept_archive_member(file_name: &str) -> (keep: bool)
    ensures
        keep == (file_name@ == MODEL_FILE_NAME@ || file_name@ == TOKENS_FILE_NAME@),
{
    str_eq(file_name, MODEL_FILE_NAME) || str_eq(file_name, TOKENS_FILE_NAME)
}

/// The members of a `.tar.bz2` archive, in archive order, as (path, contents),
/// or the text of the error that stopped reading it.
pub uninterp spec fn tar_bz2_members(archive: Seq<u8>) -> Result<Seq<(Seq<char>, Seq<u8>)>, Seq<char>>;

/// A list of archive members as plain values.
pub open spec fn member_views(m: Seq<(String, Vec<u8>)>) -> Seq<(Seq<char>, Seq<u8>)> {
    m.map_values(|e: (String, Vec<u8>)| (e.0@, e.1@))
}

/// Archive members, or an error, as plain values.
pub open spec fn members_view(r: Result<Vec<(String, Vec<u8>)>, String>) -> Result<
    Seq<(Seq<char>, Seq<u8>)>,
    Seq<char>,
> {
    match r {
        Ok(m) => Ok(member_views(m@)),
        Err(e) => Err(e@),
    }
}

/// Decompresses `archive` with `bzip2::read::BzDecoder` and reads it with
/// `tar::Archive::entries`: for each entry in turn, its path bytes (as
/// `Entry::path_bytes` gives them, read as UTF-8 with invalid sequences
/// replaced) and its contents (`read_to_end`); any error ends reading and
/// is returned as its text. The contract claims only that the answer is a
/// function of the archive's bytes, named `tar_bz2_members`.
#[verifier::external_body]
fn read_tar_bz2(archive: &[u8]) -> (r: Result<Vec<(String, Vec<u8>)>, String>)
    ensures
        members_view(r) == tar_bz2_members(archive@),
{
    let mut tar = tar::Archive::new(bzip2::read::BzDecoder::new(archive));
    let mut members = Vec::new();
    for entry in tar.entries().map_err(|e| e.to_string())? {
        let mut entry = entry.map_err(|e| e.to_string())?;
        let path = String::from_utf8_lossy(&entry.path_bytes()).into_owned();
        let mut data = Vec::new();
        std::io::Read::read_to_end(&mut entry, &mut data).map_err(|e| e.to_string())?;
        members.push((path, data));
    }
    Ok(members)
}

/// `p` without what `Path::components` drops at its end: trailing `/`
/// separators and trailing `.` components.
pub open spec fn trim_path_end(p: Seq<char>) -> Seq<char>
    decreases p.len(),
{
    if p.len() > 0 && p.last() == '/' {
        trim_path_end(p.drop_last())
    } else if p == seq!['.'] {
        Seq::empty()
    } else if p.len() >= 2 && p.last() == '.' && p[p.len() - 2] == '/' {
        trim_path_end(p.drop_last())
    } else {
        p
    }
}

/// The text after the last `/` of `p` (all of `p` if it has none).
pub open spec fn last_component(p: Seq<char>) -> Seq<char>
    decreases p.len(),
{
    if p.len() == 0 || p.last() == '/' {
        Seq::empty()
    } else {
        last_component(p.drop_last()).push(p.last())
    }
}

/// What `Path::file_name` gives for a path with `/` as its separator, as
/// tar archives store paths: the last component, unless the path ends in
/// `..` or has no normal component at all (empty, `.`, `/`).
pub open spec fn file_name_spec(p: Seq<char>) -> Option<Seq<char>> {
    let c = last_component(trim_path_end(p));
    if c.len() == 0 || c == seq!['.', '.'] {
        None
    } else {
        Some(c)
    }
}

/// The file name of a `/`-separated path: see `file_name_spec`.
pub fn path_file_name(path: &str) -> (r: Option<String>)
    ensures
        match r {
            Some(n) => file_name_spec(path@) == Some(n@),
            None => file_name_spec(path@) is None,
        },
{
    let cs = chars_of(path);
    let mut end: usize = cs.len();
    assert(cs@.take(end as int) =~= cs@);
    loop
        invariant
            end <= cs@.len(),
            trim_path_end(cs@.take(end as int)) == trim_path_end(cs@),
        ensures
            end <= cs@.len(),
            trim_path_end(cs@) == cs@.take(end as int),
        decreases end,
    {
        let ghost t = cs@.take(end as int);
        if end > 0 && cs[end - 1] == '/' {
            assert(t.drop_last() =~= cs@.take(end - 1));
            end = end - 1;
        } else if end == 1 && cs[0] == '.' {
            assert(t =~= seq!['.']);
            assert(cs@.take(0) =~= Seq::<char>::empty());
            end = 0;
        } else if end >= 2 && cs[end - 1] == '.' && cs[end - 2] == '/' {
            assert(t.drop_last() =~= cs@.take(end - 1));
            end = end - 1;
        } else {
            assert(t != seq!['.']) by {
                if t =~= seq!['.'] {
                    assert(t[0] == cs@[0]);
                }
            }
            break;
        }
    }
    let mut start: usize = end;
    while start > 0 && cs[start - 1] != '/'
        invariant
            start <= end <= cs@.len(),
            last_component(cs@.take(end as int)) == last_component(cs@.take(start as int))
                + cs@.subrange(start as int, end as int),
        decreases start,
    {
        let ghost before = cs@.take(start as int);
        assert(before.drop_last() =~= cs@.take(start - 1));
        assert(before.last() == cs@[start - 1]);
        assert(last_component(cs@.take(start - 1)).push(cs@[start - 1]) + cs@.subrange(
            start as int,
            end as int,
        ) =~= last_component(cs@.take(start - 1)) + cs@.subrange(start - 1, end as int));
        start = start - 1;
    }
    proof {
        if start > 0 {
            assert(cs@.take(start as int).last() == cs@[start - 1]);
        } else {
            assert(cs@.take(0) =~= Seq::<char>::empty());
        }
        assert(Seq::<char>::empty() + cs@.subrange(start as int, end as int) =~= cs@.subrange(
            start as int,
            end as int,
        ));
    }
    let len: usize = end - start;
    if len == 0 || (len == 2 && cs[start] == '.' && cs[start + 1] == '.') {
        proof {
            if len == 2 {
                assert(cs@.subrange(start as int, end as int) =~= seq!['.', '.']);
            }
        }
        return None;
    }
    proof {
        if cs@.subrange(start as int, end as int) == seq!['.', '.'] {
            assert(cs@.subrange(start as int, end as int)[0] == cs@[start as int]);
            assert(cs@.subrange(start as int, end as int)[1] == cs@[start + 1]);
        }
    }
    let name = string_from_chars(&cs.as_slice()[start..end]);
    Some(name)
}

/// Whether a file name is one of the model files kept from the archive.
pub open spec fn is_kept_name(name: Seq<char>) -> bool {
    name == MODEL_FILE_NAME@ || name == TOKENS_FILE_NAME@
}

/// The members kept from an archive, in order: those whose file name is a
/// model file, each paired with that file name.
pub open spec fn kept_members(m: Seq<(Seq<char>, Seq<u8>)>) -> Seq<(Seq<char>, Seq<u8>)>
    decreases m.len(),
{
    if m.len() == 0 {
        Seq::empty()
    } else {
        let rest = kept_members(m.drop_last());
        match file_name_spec(m.last().0) {
            Some(n) => if is_kept_name(n) {
                rest.push((n, m.last().1))
            } else {
                rest
            },
            None => rest,
        }
    }
}

/// The kept members of a read archive; an error passes through.
pub open spec fn select_spec(m: Result<Seq<(Seq<char>, Seq<u8>)>, Seq<char>>) -> Result<
    Seq<(Seq<char>, Seq<u8>)>,
    Seq<char>,
> {
    match m {
        Ok(s) => Ok(kept_members(s)),
        Err(e) => Err(e),
    }
}

/// Keeps, in order, the members whose file name is a model file, each
/// paired with that file name; an error passes through.
pub fn select_model_members(members: Result<Vec<(String, Vec<u8>)>, String>) -> (r: Result<
    Vec<(String, Vec<u8>)>,
    String,
>)
    ensures
        members_view(r) == select_spec(members_view(members)),
{
    let mut rest = match members {
        Ok(m) => m,
        Err(e) => {
            return Err(e);
        },
    };
    let ghost orig = member_views(rest@);
    let n: usize = rest.len();
    assert(orig.len() == n);
    assert(orig.skip(0) =~= orig);
    assert(orig.take(0) =~= Seq::<(Seq<char>, Seq<u8>)>::empty());
    let mut kept: Vec<(String, Vec<u8>)> = Vec::new();
    let mut k: usize = 0;
    while rest.len() > 0
        invariant
            k + rest@.len() == orig.len(),
            orig.len() <= usize::MAX,
            member_views(rest@) == orig.skip(k as int),
            member_views(kept@) == kept_members(orig.take(k as int)),
        decreases rest@.len(),
    {
        let ghost rest_before = rest@;
        let (path, data) = rest.remove(0);
        proof {
            assert(member_views(rest_before)[0] == orig[k as int]);
            assert(member_views(rest@) =~= orig.skip(k + 1)) by {
                assert forall|i: int| 0 <= i < rest@.len() implies member_views(rest@)[i]
                    == orig.skip(k + 1)[i] by {
                    assert(rest@[i] == rest_before[i + 1]);
                    assert(member_views(rest_before)[i + 1] == orig[k + 1 + i]);
                }
            }
            let t = orig.take(k + 1);
            assert(t.drop_last() =~= orig.take(k as int));
            assert(t.last() == orig[k as int]);
            assert(orig[k as int] == (path@, data@));
        }
        match path_file_name(path.as_str()) {
            Some(n) => {
                if is_kept_archive_member(n.as_str()) {
                    let ghost kb = kept@;
                    kept.push((n, data));
                    proof {
                        assert(member_views(kept@) =~= member_views(kb).push((n@, data@)));
                    }
                }
            },
            None => {},
        }
        k = k + 1;
    }
    proof {
        assert(orig.take(k as int) =~= orig);
    }
    Ok(kept)
}

/// The model files in a downloaded `.tar.bz2` archive: its members read in
/// order, keeping those whose file name is a model file, each with that file
/// name and its contents; or the error that stopped reading the archive.
pub fn model_files_from_archive(archive: &[u8]) -> (r: Result<Vec<(String, Vec<u8>)>, String>)
    ensures
        members_view(r) == select_spec(tar_bz2_members(archive@)),
{
    select_model_members(read_tar_bz2(archive))
}

/// Unpacking keeps only model files: every kept member's name is the model
/// weights or the token table, and it is the file name of some member.
pub proof fn lemma_only_model_files_kept(m: Seq<(Seq<char>, Seq<u8>)>)
    ensures
        forall|i: int| 0 <= i < kept_members(m).len() ==> is_kept_name(#[trigger] kept_members(m)[i].0),
        kept_members(m).len() <= m.len(),
    decreases m.len(),
{
    if m.len() > 0 {
        lemma_only_model_files_kept(m.drop_last());
    }
}

/// A missing or blank override falls back to the default URL.
pub proof fn lemma_blank_override_uses_default(u: Seq<char>)
    requires
        trim(u).len() == 0,
    ensures
        model_tarball_url_spec(Some(u)) == DEFAULT_MODEL_TARBALL_URL@,
        model_tarball_url_spec(None) == DEFAULT_MODEL_TARBALL_URL@,
{
}

} // verus!
