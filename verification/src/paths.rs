//! Where the server looks for Whisper checkpoints, piper voices, the Python environment
//! and its own files.
//!
//! Paths are text. Which paths exist is not known here: each search has a `*_candidates`
//! function listing, in order, every path it may look at, and takes the list of those
//! found on disk (`present`); it returns the first candidate that is present.
//! Joining follows `PathBuf::push` on Unix; a path's parent and extension come from
//! `std::path`.

use vstd::prelude::*;
use crate::chars::chars_of;
use crate::state::opt_view;

verus! {

/// What `Path::parent` gives for a path (`None` for a root or an empty path).
pub uninterp spec fn path_parent_result(path: Seq<char>) -> Option<Seq<char>>;

/// What `Path::extension` gives for a path.
pub uninterp spec fn path_extension_result(path: Seq<char>) -> Option<Seq<char>>;

/// `std::path::Path::parent`: the path without its last component (`None` for a root or an
/// empty path). Stated: the result is this function of the path, and, being a prefix that
/// leaves out the last component, it is shorter than the path.
#[verifier::external_body]
pub(crate) fn path_parent(path: &str) -> (r: Option<String>)
    ensures
        opt_view(r) == path_parent_result(path@),
        r matches Some(q) ==> q@.len() < path@.len(),
{
    std::path::Path::new(path).parent().map(|p| p.to_string_lossy().into_owned())
}

/// `std::path::Path::extension`: the text after the last `.` of the file name, when the
/// file name has one that is not its first character and is not `..`. Nothing more of the
/// result is stated than that it is this function of the path.
#[verifier::external_body]
pub(crate) fn path_extension(path: &str) -> (r: Option<String>)
    ensures
        opt_view(r) == path_extension_result(path@),
{
    std::path::Path::new(path).extension().map(|e| e.to_string_lossy().into_owned())
}

/// `PathBuf::push` on Unix: an absolute `part` replaces `base`; otherwise a `/` separates
/// them unless `base` is empty or already ends with one.
pub open spec fn join_spec(base: Seq<char>, part: Seq<char>) -> Seq<char> {
    if part.len() > 0 && part[0] == '/' {
        part
    } else if base.len() == 0 || base.last() == '/' {
        base + part
    } else {
        base + seq!['/'] + part
    }
}

/// `base` joined with `part`.
pub fn path_join(base: &str, part: &str) -> (r: String)
    ensures
        r@ == join_spec(base@, part@),
{
    let b = chars_of(base);
    let p = chars_of(part);
    if p.len() > 0 && p[0] == '/' {
        return String::from_str(part);
    }
    if b.len() == 0 || b[b.len() - 1] == '/' {
        return String::from_str(base).concat(part);
    }
    proof {
        reveal_strlit("/");
    }
    let r = String::from_str(base).concat("/").concat(part);
    assert(r@ =~= join_spec(base@, part@));
    r
}

/// The views of a list of strings.
pub open spec fn views(v: Seq<String>) -> Seq<Seq<char>> {
    v.map_values(|s: String| s@)
}

/// The first candidate found on disk.
pub open spec fn first_present(cands: Seq<Seq<char>>, present: Seq<Seq<char>>) -> Option<Seq<char>>
    decreases cands.len(),
{
    if cands.len() == 0 {
        None
    } else if present.contains(cands[0]) {
        Some(cands[0])
    } else {
        first_present(cands.drop_first(), present)
    }
}

/// Whether `p` is among the paths found on disk.
pub fn is_present(present: &Vec<String>, p: &String) -> (r: bool)
    ensures
        r == views(present@).contains(p@),
{
    let mut i: usize = 0;
    while i < present.len()
        invariant
            i <= present@.len(),
            forall|j: int| 0 <= j < i ==> #[trigger] present@[j]@ != p@,
        decreases present@.len() - i,
    {
        if present[i] == *p {
            assert(views(present@)[i as int] == p@);
            return true;
        }
        i = i + 1;
    }
    proof {
        if views(present@).contains(p@) {
            let j = choose|j: int| 0 <= j < views(present@).len() && views(present@)[j] == p@;
            assert(present@[j]@ == p@);
        }
    }
    false
}

/// The first candidate found on disk.
pub fn find_first_present(cands: &Vec<String>, present: &Vec<String>) -> (r: Option<String>)
    ensures
        opt_view(r) == first_present(views(cands@), views(present@)),
{
    let mut i: usize = 0;
    assert(views(cands@).subrange(0, cands@.len() as int) =~= views(cands@));
    while i < cands.len()
        invariant
            i <= cands@.len(),
            first_present(views(cands@), views(present@)) == first_present(
                views(cands@).subrange(i as int, cands@.len() as int),
                views(present@),
            ),
        decreases cands@.len() - i,
    {
        let ghost rest = views(cands@).subrange(i as int, cands@.len() as int);
        assert(rest[0] == cands@[i as int]@);
        if is_present(present, &cands[i]) {
            return Some(cands[i].clone());
        }
        assert(rest.drop_first() =~= views(cands@).subrange(i + 1, cands@.len() as int));
        i = i + 1;
    }
    None
}

/// A path and its ancestors, nearest first, as `Path::ancestors` lists them.
pub open spec fn ancestors(p: Seq<char>) -> Seq<Seq<char>>
    decreases p.len(),
{
    match path_parent_result(p) {
        Some(q) => if q.len() < p.len() {
            seq![p] + ancestors(q)
        } else {
            seq![p]
        },
        None => seq![p],
    }
}

/// Each path joined with `part`.
pub open spec fn join_all(ps: Seq<Seq<char>>, part: Seq<char>) -> Seq<Seq<char>> {
    ps.map_values(|p: Seq<char>| join_spec(p, part))
}

/// The ancestors of `start`, nearest first.
pub fn path_ancestors(start: &str) -> (r: Vec<String>)
    ensures
        views(r@) == ancestors(start@),
{
    let mut out: Vec<String> = Vec::new();
    let mut cur = String::from_str(start);
    loop
        invariant
            views(out@) + ancestors(cur@) == ancestors(start@),
        decreases cur@.len(),
    {
        let parent = path_parent(cur.as_str());
        let ghost before = views(out@);
        let ghost c = cur@;
        match parent {
            Some(q) => {
                out.push(cur);
                assert(views(out@) =~= before + seq![c]);
                assert(ancestors(c) == seq![c] + ancestors(q@));
                cur = q;
            },
            None => {
                out.push(cur);
                assert(views(out@) =~= before + seq![c]);
                assert(ancestors(c) == seq![c]);
                return out;
            },
        }
    }
}

/// Every candidate `find_upward` may look at: each ancestor of `start`, nearest first,
/// joined with `relative`.
pub fn upward_candidates(start: &str, relative: &str) -> (r: Vec<String>)
    ensures
        views(r@) == join_all(ancestors(start@), relative@),
{
    let ancs = path_ancestors(start);
    let mut out: Vec<String> = Vec::new();
    let mut i: usize = 0;
    while i < ancs.len()
        invariant
            i <= ancs@.len(),
            views(ancs@) == ancestors(start@),
            views(out@) == join_all(views(ancs@).take(i as int), relative@),
        decreases ancs@.len() - i,
    {
        let j = path_join(ancs[i].as_str(), relative);
        let ghost before = out@;
        out.push(j);
        assert(views(ancs@)[i as int] == ancs@[i as int]@);
        assert(views(ancs@).take(i + 1) =~= views(ancs@).take(i as int).push(ancs@[i as int]@));
        assert(views(out@) =~= views(before).push(j@));
        assert(views(out@) =~= join_all(views(ancs@).take(i + 1), relative@));
        i = i + 1;
    }
    assert(views(ancs@).take(i as int) =~= views(ancs@));
    out
}

/// The first ancestor of `start` (itself included) under which `relative` is on disk.
pub fn find_upward(start: &str, relative: &str, present: &Vec<String>) -> (r: Option<String>)
    ensures
        opt_view(r) == first_present(join_all(ancestors(start@), relative@), views(present@)),
{
    let cands = upward_candidates(start, relative);
    find_first_present(&cands, present)
}

/// The places `find_nearby_file` looks at for `file` near `start`: in `start`, its
/// `models` and `whisper` folders, then the same in its parent (an empty path when there
/// is no parent).
pub open spec fn nearby_candidates_spec(start: Seq<char>, file: Seq<char>) -> Seq<Seq<char>> {
    let parent = path_parent_result(start);
    let in_parent = |sub: Seq<char>| match parent {
        Some(p) => join_spec(if sub.len() == 0 { p } else { join_spec(p, sub) }, file),
        None => Seq::<char>::empty(),
    };
    seq![
        join_spec(start, file),
        join_spec(join_spec(start, "models"@), file),
        join_spec(join_spec(start, "whisper"@), file),
        in_parent(Seq::empty()),
        in_parent("models"@),
        in_parent("whisper"@),
    ]
}

/// The places `find_nearby_file` looks at, in order.
pub fn nearby_candidates(start: &str, file: &str) -> (r: Vec<String>)
    ensures
        views(r@) == nearby_candidates_spec(start@, file@),
{
    let parent = path_parent(start);
    let mut out: Vec<String> = Vec::new();
    out.push(path_join(start, file));
    let m = path_join(start, "models");
    out.push(path_join(m.as_str(), file));
    let w = path_join(start, "whisper");
    out.push(path_join(w.as_str(), file));
    match &parent {
        Some(p) => {
            out.push(path_join(p.as_str(), file));
            let pm = path_join(p.as_str(), "models");
            out.push(path_join(pm.as_str(), file));
            let pw = path_join(p.as_str(), "whisper");
            out.push(path_join(pw.as_str(), file));
        },
        None => {
            out.push(String::new());
            out.push(String::new());
            out.push(String::new());
        },
    }
    assert(views(out@) =~= nearby_candidates_spec(start@, file@));
    out
}

/// The first of the places near `start` where `file` is on disk.
pub fn find_nearby_file(start: &str, file: &str, present: &Vec<String>) -> (r: Option<String>)
    ensures
        opt_view(r) == first_present(nearby_candidates_spec(start@, file@), views(present@)),
{
    let cands = nearby_candidates(start, file);
    find_first_present(&cands, present)
}

/// Where the server runs: its working directory, the directory of its executable, and the
/// environment variables that locate Whisper's cache. Each is `None` when unknown or unset.
pub struct HostEnv {
    pub cwd: Option<String>,
    pub exe_dir: Option<String>,
    pub user_profile: Option<String>,
    pub home: Option<String>,
    pub xdg_cache_home: Option<String>,
}

pub struct HostView {
    pub cwd: Option<Seq<char>>,
    pub exe_dir: Option<Seq<char>>,
    pub user_profile: Option<Seq<char>>,
    pub home: Option<Seq<char>>,
    pub xdg_cache_home: Option<Seq<char>>,
}

impl HostEnv {
    pub open spec fn view(&self) -> HostView {
        HostView {
            cwd: opt_view(self.cwd),
            exe_dir: opt_view(self.exe_dir),
            user_profile: opt_view(self.user_profile),
            home: opt_view(self.home),
            xdg_cache_home: opt_view(self.xdg_cache_home),
        }
    }
}

/// An optional element as a list.
pub open spec fn opt_list(o: Option<Seq<char>>) -> Seq<Seq<char>> {
    match o {
        Some(x) => seq![x],
        None => Seq::empty(),
    }
}

fn push_opt_string(out: &mut Vec<String>, o: &Option<String>)
    ensures
        views(final(out)@) == views(old(out)@) + opt_list(opt_view(*o)),
{
    let ghost before = views(out@);
    match o {
        Some(x) => {
            out.push(x.clone());
            assert(views(out@) =~= before + opt_list(opt_view(*o)));
        },
        None => {
            assert(views(out@) =~= before + opt_list(opt_view(*o)));
        },
    }
}

fn append_strings(out: &mut Vec<String>, more: Vec<String>)
    ensures
        views(final(out)@) == views(old(out)@) + views(more@),
{
    let ghost before = views(out@);
    let mut i: usize = 0;
    while i < more.len()
        invariant
            i <= more@.len(),
            views(out@) == before + views(more@).take(i as int),
        decreases more@.len() - i,
    {
        let ghost b = out@;
        out.push(more[i].clone());
        assert(views(out@) =~= views(b).push(more@[i as int]@));
        assert(views(more@).take(i + 1) =~= views(more@).take(i as int).push(more@[i as int]@));
        i = i + 1;
    }
    assert(views(more@).take(i as int) =~= views(more@));
}

/// The directories the searches start from: the working directory, then the directory of
/// the executable.
pub open spec fn search_starts(env: HostView) -> Seq<Seq<char>> {
    opt_list(env.cwd) + opt_list(env.exe_dir)
}

/// The first ancestor under which `Cargo.toml` is on disk.
pub open spec fn root_among(ancs: Seq<Seq<char>>, present: Seq<Seq<char>>) -> Option<Seq<char>>
    decreases ancs.len(),
{
    if ancs.len() == 0 {
        None
    } else if present.contains(join_spec(ancs[0], "Cargo.toml"@)) {
        Some(ancs[0])
    } else {
        root_among(ancs.drop_first(), present)
    }
}

/// The project root: from the first start that has one, its nearest ancestor holding a
/// `Cargo.toml`.
pub open spec fn project_root_from(starts: Seq<Seq<char>>, present: Seq<Seq<char>>) -> Option<Seq<char>>
    decreases starts.len(),
{
    if starts.len() == 0 {
        None
    } else {
        match root_among(ancestors(starts[0]), present) {
            Some(r) => Some(r),
            None => project_root_from(starts.drop_first(), present),
        }
    }
}

/// Every path the project-root search may look at.
pub open spec fn project_root_candidates_from(starts: Seq<Seq<char>>) -> Seq<Seq<char>>
    decreases starts.len(),
{
    if starts.len() == 0 {
        Seq::empty()
    } else {
        join_all(ancestors(starts[0]), "Cargo.toml"@) + project_root_candidates_from(starts.drop_first())
    }
}

fn starts_of(env: &HostEnv) -> (r: Vec<String>)
    ensures
        views(r@) == search_starts(env@),
{
    let mut out: Vec<String> = Vec::new();
    assert(views(out@) =~= Seq::<Seq<char>>::empty());
    push_opt_string(&mut out, &env.cwd);
    push_opt_string(&mut out, &env.exe_dir);
    out
}

/// Every path the project-root search may look at, in order.
pub fn project_root_candidates(env: &HostEnv) -> (r: Vec<String>)
    ensures
        views(r@) == project_root_candidates_from(search_starts(env@)),
{
    let starts = starts_of(env);
    let mut result: Vec<String> = Vec::new();
    let mut k: usize = 0;
    assert(views(result@) =~= Seq::<Seq<char>>::empty());
    assert(views(starts@).skip(0) =~= views(starts@));
    while k < starts.len()
        invariant
            k <= starts@.len(),
            views(result@) + project_root_candidates_from(views(starts@).skip(k as int))
                == project_root_candidates_from(views(starts@)),
        decreases starts@.len() - k,
    {
        let ghost rest = views(starts@).skip(k as int);
        let more = upward_candidates(starts[k].as_str(), "Cargo.toml");
        let ghost before = views(result@);
        append_strings(&mut result, more);
        assert(rest[0] == starts@[k as int]@);
        assert(rest.drop_first() =~= views(starts@).skip(k + 1));
        k = k + 1;
    }
    assert(views(starts@).skip(k as int) =~= Seq::<Seq<char>>::empty());
    assert(views(result@) =~= project_root_candidates_from(views(starts@)));
    result
}

/// The project root: the nearest ancestor holding a `Cargo.toml`, of the working
/// directory, else of the executable's directory.
pub fn project_root(env: &HostEnv, present: &Vec<String>) -> (r: Option<String>)
    ensures
        opt_view(r) == project_root_from(search_starts(env@), views(present@)),
{
    let starts = starts_of(env);
    let mut k: usize = 0;
    assert(views(starts@).skip(0) =~= views(starts@));
    while k < starts.len()
        invariant
            k <= starts@.len(),
            views(starts@) == search_starts(env@),
            project_root_from(views(starts@).skip(k as int), views(present@))
                == project_root_from(views(starts@), views(present@)),
        decreases starts@.len() - k,
    {
        let ghost rest = views(starts@).skip(k as int);
        assert(rest[0] == starts@[k as int]@);
        let ancs = path_ancestors(starts[k].as_str());
        let mut j: usize = 0;
        assert(views(ancs@).skip(0) =~= views(ancs@));
        while j < ancs.len()
            invariant
                j <= ancs@.len(),
                k < starts@.len(),
                rest == views(starts@).skip(k as int),
                rest[0] == starts@[k as int]@,
                views(starts@) == search_starts(env@),
                views(ancs@) == ancestors(starts@[k as int]@),
                project_root_from(rest, views(present@)) == project_root_from(views(starts@), views(present@)),
                root_among(views(ancs@).skip(j as int), views(present@))
                    == root_among(ancestors(starts@[k as int]@), views(present@)),
            decreases ancs@.len() - j,
        {
            let ghost r2 = views(ancs@).skip(j as int);
            assert(r2[0] == ancs@[j as int]@);
            let marker = path_join(ancs[j].as_str(), "Cargo.toml");
            if is_present(present, &marker) {
                assert(root_among(r2, views(present@)) == Some(r2[0]));
                assert(rest.len() > 0);
                assert(project_root_from(rest, views(present@)) == Some(r2[0]));
                return Some(ancs[j].clone());
            }
            assert(r2.drop_first() =~= views(ancs@).skip(j + 1));
            j = j + 1;
        }
        assert(views(ancs@).skip(j as int) =~= Seq::<Seq<char>>::empty());
        assert(rest.drop_first() =~= views(starts@).skip(k + 1));
        k = k + 1;
    }
    None
}

/// The project root, or `.` when there is none.
pub open spec fn root_or_dot(root: Option<Seq<char>>) -> Seq<char> {
    match root {
        Some(r) => r,
        None => "."@,
    }
}

fn root_or_dot_string(root: &Option<String>) -> (r: String)
    ensures
        r@ == root_or_dot(opt_view(*root)),
{
    match root {
        Some(r) => r.clone(),
        None => String::from_str("."),
    }
}

/// Where a recording is written when no output path is given: `target/mic.wav` under the
/// project root.
pub fn default_output_path(root: &Option<String>) -> (r: String)
    ensures
        r@ == join_spec(root_or_dot(opt_view(*root)), "target/mic.wav"@),
{
    let base = root_or_dot_string(root);
    path_join(base.as_str(), "target/mic.wav")
}

/// The folder voice-cloning files live in: `target/clone` under the project root.
pub open spec fn clone_dir_spec(root: Option<Seq<char>>) -> Seq<char> {
    join_spec(join_spec(root_or_dot(root), "target"@), "clone"@)
}

/// The folder voice-cloning files live in.
pub fn clone_dir(root: &Option<String>) -> (r: String)
    ensures
        r@ == clone_dir_spec(opt_view(*root)),
{
    let base = root_or_dot_string(root);
    let t = path_join(base.as_str(), "target");
    path_join(t.as_str(), "clone")
}

/// Where the reference transcript is saved.
pub fn clone_reference_text_path(root: &Option<String>) -> (r: String)
    ensures
        r@ == join_spec(clone_dir_spec(opt_view(*root)), "reference.txt"@),
{
    let d = clone_dir(root);
    path_join(d.as_str(), "reference.txt")
}

/// Where f5-tts writes the cloned speech.
pub fn clone_output_path(root: &Option<String>) -> (r: String)
    ensures
        r@ == join_spec(clone_dir_spec(opt_view(*root)), "output.wav"@),
{
    let d = clone_dir(root);
    path_join(d.as_str(), "output.wav")
}

/// Whether a directory entry is saved reference audio: named `reference.` something, but
/// not the transcript.
pub fn is_clone_reference_audio_name(name: &str) -> (r: bool)
    ensures
        r == (crate::chars::has_prefix(name@, "reference."@) && name@ != "reference.txt"@),
{
    let n = chars_of(name);
    let p = chars_of("reference.");
    let t = chars_of("reference.txt");
    let starts = crate::chars::matches_at(n.as_slice(), 0, p.as_slice());
    assert(n@.subrange(0, p@.len() as int) == n@.take(p@.len() as int));
    starts && !crate::chars::chars_eq(n.as_slice(), t.as_slice())
}

/// A voice reference is ready when reference audio was found and its transcript is on
/// disk.
pub fn has_clone_reference(audio_found: bool, root: &Option<String>, present: &Vec<String>) -> (r: bool)
    ensures
        r == (audio_found && views(present@).contains(join_spec(clone_dir_spec(opt_view(*root)), "reference.txt"@))),
{
    let t = clone_reference_text_path(root);
    audio_found && is_present(present, &t)
}

/// The folder piper voices are downloaded to: `models/tts` under the project root.
pub open spec fn tts_models_root_spec(root: Option<Seq<char>>) -> Seq<char> {
    join_spec(join_spec(root_or_dot(root), "models"@), "tts"@)
}

/// The folder piper voices are downloaded to.
pub fn tts_models_root(root: &Option<String>) -> (r: String)
    ensures
        r@ == tts_models_root_spec(opt_view(*root)),
{
    let base = root_or_dot_string(root);
    let m = path_join(base.as_str(), "models");
    path_join(m.as_str(), "tts")
}

/// The content type of a static file, by the extension of its path.
pub open spec fn static_content_type_spec(path: Seq<char>) -> crate::http::ContentType {
    match path_extension_result(path) {
        Some(e) => if e == "js"@ {
            crate::http::ContentType::JavaScript
        } else if e == "wasm"@ {
            crate::http::ContentType::Wasm
        } else {
            crate::http::ContentType::OctetStream
        },
        None => crate::http::ContentType::OctetStream,
    }
}

/// The answer carrying a static file's bytes, typed by its path's extension.
pub fn static_file_reply(path: &str, bytes: Vec<u8>) -> (r: crate::http::Response)
    ensures
        r.view() == (crate::http::HttpStatus::Success, static_content_type_spec(path@), bytes@),
{
    let ct = match path_extension(path) {
        Some(e) => {
            let ec = chars_of(e.as_str());
            let js = chars_of("js");
            let wasm = chars_of("wasm");
            if crate::chars::chars_eq(ec.as_slice(), js.as_slice()) {
                crate::http::ContentType::JavaScript
            } else if crate::chars::chars_eq(ec.as_slice(), wasm.as_slice()) {
                crate::http::ContentType::Wasm
            } else {
                crate::http::ContentType::OctetStream
            }
        },
        None => crate::http::ContentType::OctetStream,
    };
    crate::http::Response { status: crate::http::HttpStatus::Success, content_type: ct, body: bytes }
}

/// Where checkpoint searches start: the working directory, the project root, the
/// executable's directory.
pub open spec fn model_starts(env: HostView, root: Option<Seq<char>>) -> Seq<Seq<char>> {
    opt_list(env.cwd) + opt_list(root) + opt_list(env.exe_dir)
}

/// Whisper's download caches: `%USERPROFILE%/.cache/whisper`, `$HOME/.cache/whisper`,
/// `$XDG_CACHE_HOME/whisper`, for those variables that are set.
pub open spec fn cache_dirs(env: HostView) -> Seq<Seq<char>> {
    let in_home = |h: Seq<char>| join_spec(join_spec(h, ".cache"@), "whisper"@);
    opt_list(
        match env.user_profile {
            Some(u) => Some(in_home(u)),
            None => None,
        },
    ) + opt_list(
        match env.home {
            Some(h) => Some(in_home(h)),
            None => None,
        },
    ) + opt_list(
        match env.xdg_cache_home {
            Some(x) => Some(join_spec(x, "whisper"@)),
            None => None,
        },
    )
}

/// The places near each start where a file may be.
pub open spec fn nearby_all(starts: Seq<Seq<char>>, file: Seq<char>) -> Seq<Seq<char>>
    decreases starts.len(),
{
    if starts.len() == 0 {
        Seq::empty()
    } else {
        nearby_candidates_spec(starts[0], file) + nearby_all(starts.drop_first(), file)
    }
}

/// The checkpoint file of a model name.
pub open spec fn model_file_name(model: Seq<char>) -> Seq<char> {
    model + ".pt"@
}

/// Every place a checkpoint file may be, in search order: near each start, then in each
/// cache.
pub open spec fn model_file_candidates_spec(model: Seq<char>, env: HostView, root: Option<Seq<char>>) -> Seq<Seq<char>> {
    nearby_all(model_starts(env, root), model_file_name(model)) + join_all(
        cache_dirs(env),
        model_file_name(model),
    )
}

/// Whether a checkpoint is available: the name is itself a path on disk, or its checkpoint
/// file is found.
pub open spec fn model_available_spec(
    model: Seq<char>,
    env: HostView,
    root: Option<Seq<char>>,
    present: Seq<Seq<char>>,
) -> bool {
    present.contains(model) || first_present(model_file_candidates_spec(model, env, root), present) is Some
}

fn join_opt(o: &Option<String>, part: &str) -> (r: Option<String>)
    ensures
        opt_view(r) == match opt_view(*o) {
            Some(x) => Some(join_spec(x, part@)),
            None => None,
        },
{
    match o {
        Some(x) => Some(path_join(x.as_str(), part)),
        None => None,
    }
}

fn cache_dirs_of(env: &HostEnv) -> (r: Vec<String>)
    ensures
        views(r@) == cache_dirs(env@),
{
    let mut out: Vec<String> = Vec::new();
    assert(views(out@) =~= Seq::<Seq<char>>::empty());
    let u = join_opt(&env.user_profile, ".cache");
    let u2 = join_opt(&u, "whisper");
    push_opt_string(&mut out, &u2);
    let h = join_opt(&env.home, ".cache");
    let h2 = join_opt(&h, "whisper");
    push_opt_string(&mut out, &h2);
    let x = join_opt(&env.xdg_cache_home, "whisper");
    push_opt_string(&mut out, &x);
    assert(views(out@) =~= cache_dirs(env@));
    out
}

fn nearby_all_of(starts: &Vec<String>, file: &str) -> (r: Vec<String>)
    ensures
        views(r@) == nearby_all(views(starts@), file@),
{
    let mut out: Vec<String> = Vec::new();
    let mut k: usize = 0;
    assert(views(out@) =~= Seq::<Seq<char>>::empty());
    assert(views(starts@).skip(0) =~= views(starts@));
    while k < starts.len()
        invariant
            k <= starts@.len(),
            views(out@) + nearby_all(views(starts@).skip(k as int), file@) == nearby_all(views(starts@), file@),
        decreases starts@.len() - k,
    {
        let ghost rest = views(starts@).skip(k as int);
        assert(rest[0] == starts@[k as int]@);
        assert(rest.drop_first() =~= views(starts@).skip(k + 1));
        let more = nearby_candidates(starts[k].as_str(), file);
        append_strings(&mut out, more);
        k = k + 1;
    }
    assert(views(starts@).skip(k as int) =~= Seq::<Seq<char>>::empty());
    assert(views(out@) =~= nearby_all(views(starts@), file@));
    out
}

fn join_each(dirs: &Vec<String>, part: &str) -> (r: Vec<String>)
    ensures
        views(r@) == join_all(views(dirs@), part@),
{
    let mut out: Vec<String> = Vec::new();
    let mut i: usize = 0;
    while i < dirs.len()
        invariant
            i <= dirs@.len(),
            views(out@) == join_all(views(dirs@).take(i as int), part@),
        decreases dirs@.len() - i,
    {
        let j = path_join(dirs[i].as_str(), part);
        let ghost before = out@;
        out.push(j);
        assert(views(dirs@).take(i + 1) =~= views(dirs@).take(i as int).push(dirs@[i as int]@));
        assert(views(out@) =~= views(before).push(j@));
        assert(views(out@) =~= join_all(views(dirs@).take(i + 1), part@));
        i = i + 1;
    }
    assert(views(dirs@).take(i as int) =~= views(dirs@));
    out
}

/// Every place a checkpoint file may be, in search order.
pub fn model_file_candidates(model: &str, env: &HostEnv, root: &Option<String>) -> (r: Vec<String>)
    ensures
        views(r@) == model_file_candidates_spec(model@, env@, opt_view(*root)),
{
    let file = String::from_str(model).concat(".pt");
    let mut starts: Vec<String> = Vec::new();
    assert(views(starts@) =~= Seq::<Seq<char>>::empty());
    push_opt_string(&mut starts, &env.cwd);
    push_opt_string(&mut starts, root);
    push_opt_string(&mut starts, &env.exe_dir);
    let mut out = nearby_all_of(&starts, file.as_str());
    let caches = cache_dirs_of(env);
    let more = join_each(&caches, file.as_str());
    append_strings(&mut out, more);
    out
}

/// Every path `model_is_available` may look at: the name itself, then the checkpoint file
/// candidates.
pub fn model_search_candidates(model: &str, env: &HostEnv, root: &Option<String>) -> (r: Vec<String>)
    ensures
        views(r@) == seq![model@] + model_file_candidates_spec(model@, env@, opt_view(*root)),
{
    let mut out: Vec<String> = Vec::new();
    out.push(String::from_str(model));
    let more = model_file_candidates(model, env, root);
    assert(views(out@) =~= seq![model@]);
    append_strings(&mut out, more);
    out
}

/// The checkpoint file of `model`, searched near the working directory, the project root
/// and the executable, then in Whisper's caches.
pub fn find_model_file(model: &str, env: &HostEnv, root: &Option<String>, present: &Vec<String>) -> (r: Option<String>)
    ensures
        opt_view(r) == first_present(model_file_candidates_spec(model@, env@, opt_view(*root)), views(present@)),
{
    let cands = model_file_candidates(model, env, root);
    find_first_present(&cands, present)
}

/// Whether checkpoint `model` can be used: the name is a path on disk, or its checkpoint
/// file is found.
pub fn model_is_available(model: &str, env: &HostEnv, root: &Option<String>, present: &Vec<String>) -> (r: bool)
    ensures
        r == model_available_spec(model@, env@, opt_view(*root), views(present@)),
{
    let m = String::from_str(model);
    is_present(present, &m) || find_model_file(model, env, root, present).is_some()
}

/// What Whisper is given as `--model`: the name when it is a path on disk or names a
/// checkpoint file (extension `pt`); otherwise the local checkpoint file found for it (in
/// the project folder, `models/`, `whisper/`, the parent folder, or Whisper's cache); and
/// the name itself when none is found, for Whisper to fetch.
pub open spec fn resolve_model_spec(
    model: Seq<char>,
    env: HostView,
    root: Option<Seq<char>>,
    present: Seq<Seq<char>>,
) -> Seq<char> {
    if present.contains(model) || path_extension_result(model) == Some("pt"@) {
        model
    } else {
        match first_present(model_file_candidates_spec(model, env, root), present) {
            Some(p) => p,
            None => model,
        }
    }
}

/// What Whisper is given as `--model` for `model`.
pub fn resolve_model(model: &str, env: &HostEnv, root: &Option<String>, present: &Vec<String>) -> (r: String)
    ensures
        r@ == resolve_model_spec(model@, env@, opt_view(*root), views(present@)),
{
    let m = String::from_str(model);
    if is_present(present, &m) {
        return m;
    }
    match path_extension(model) {
        Some(e) => {
            let ec = chars_of(e.as_str());
            let pt = chars_of("pt");
            if crate::chars::chars_eq(ec.as_slice(), pt.as_slice()) {
                return m;
            }
        },
        None => {},
    }
    match find_model_file(model, env, root, present) {
        Some(p) => p,
        None => m,
    }
}

/// The first of `ids` that is available.
pub open spec fn first_available(
    ids: Seq<Seq<char>>,
    env: HostView,
    root: Option<Seq<char>>,
    present: Seq<Seq<char>>,
) -> Option<Seq<char>>
    decreases ids.len(),
{
    if ids.len() == 0 {
        None
    } else if model_available_spec(ids[0], env, root, present) {
        Some(ids[0])
    } else {
        first_available(ids.drop_first(), env, root, present)
    }
}

/// The checkpoint selected at start: the one asked for when available, else the first
/// available one on offer, else the one asked for.
pub open spec fn initial_model_spec(
    requested: Seq<char>,
    env: HostView,
    root: Option<Seq<char>>,
    present: Seq<Seq<char>>,
) -> Seq<char> {
    if model_available_spec(requested, env, root, present) {
        requested
    } else {
        match first_available(crate::server::model_ids(), env, root, present) {
            Some(m) => m,
            None => requested,
        }
    }
}

/// The checkpoint selected at start.
pub fn initial_model(requested: &str, env: &HostEnv, root: &Option<String>, present: &Vec<String>) -> (r: String)
    ensures
        r@ == initial_model_spec(requested@, env@, opt_view(*root), views(present@)),
{
    if model_is_available(requested, env, root, present) {
        return String::from_str(requested);
    }
    let options = crate::catalog::model_options();
    let ghost ids = crate::server::model_ids();
    let mut i: usize = 0;
    assert(ids.skip(0) =~= ids);
    while i < options.len()
        invariant
            i <= options@.len(),
            options@.len() == crate::catalog::model_catalog().len(),
            ids == crate::server::model_ids(),
            ids.len() == options@.len(),
            !model_available_spec(requested@, env@, opt_view(*root), views(present@)),
            forall|j: int| 0 <= j < options@.len() ==> #[trigger] options@[j].view() == crate::catalog::model_catalog()[j],
            first_available(ids.skip(i as int), env@, opt_view(*root), views(present@))
                == first_available(ids, env@, opt_view(*root), views(present@)),
        decreases options@.len() - i,
    {
        let ghost rest = ids.skip(i as int);
        assert(options@[i as int].view() == crate::catalog::model_catalog()[i as int]);
        assert(rest[0] == options@[i as int].model@);
        if model_is_available(options[i].model.as_str(), env, root, present) {
            assert(first_available(rest, env@, opt_view(*root), views(present@)) == Some(rest[0]));
            return options[i].model.clone();
        }
        assert(rest.drop_first() =~= ids.skip(i + 1));
        i = i + 1;
    }
    assert(ids.skip(i as int) =~= Seq::<Seq<char>>::empty());
    String::from_str(requested)
}

/// The interpreters next to a Whisper executable: `python.exe` and `python` beside it, then
/// `bin/python` one level up. There are none when the executable has no grandparent.
pub open spec fn python_candidates_spec(whisper_bin: Seq<char>) -> Seq<Seq<char>> {
    match path_parent_result(whisper_bin) {
        Some(p) => match path_parent_result(p) {
            Some(g) => seq![
                join_spec(p, "python.exe"@),
                join_spec(p, "python"@),
                join_spec(join_spec(g, "bin"@), "python"@),
            ],
            None => Seq::empty(),
        },
        None => Seq::empty(),
    }
}

/// The interpreters next to a Whisper executable, in search order.
pub fn python_candidates(whisper_bin: &str) -> (r: Vec<String>)
    ensures
        views(r@) == python_candidates_spec(whisper_bin@),
{
    let mut out: Vec<String> = Vec::new();
    match path_parent(whisper_bin) {
        Some(p) => match path_parent(p.as_str()) {
            Some(g) => {
                out.push(path_join(p.as_str(), "python.exe"));
                out.push(path_join(p.as_str(), "python"));
                let b = path_join(g.as_str(), "bin");
                out.push(path_join(b.as_str(), "python"));
            },
            None => {},
        },
        None => {},
    }
    assert(views(out@) =~= python_candidates_spec(whisper_bin@));
    out
}

/// The Python interpreter that belongs to a Whisper executable, if one is on disk.
pub fn python_for_whisper_bin(whisper_bin: &str, present: &Vec<String>) -> (r: Option<String>)
    ensures
        opt_view(r) == first_present(python_candidates_spec(whisper_bin@), views(present@)),
{
    let cands = python_candidates(whisper_bin);
    find_first_present(&cands, present)
}

/// A program the server looks for in the project's virtual environment.
#[derive(Clone, Copy, Debug, PartialEq, Eq, Structural)]
pub enum LocalTool {
    Python,
    Whisper,
    Piper,
    F5Tts,
}

/// The places in a virtual environment a tool may be, Windows layout first.
pub open spec fn tool_relatives(t: LocalTool) -> Seq<Seq<char>> {
    match t {
        LocalTool::Python => seq![".venv/Scripts/python.exe"@, ".venv/Scripts/python"@, ".venv/bin/python"@],
        LocalTool::Whisper => seq![".venv/Scripts/whisper.exe"@, ".venv/Scripts/whisper"@, ".venv/bin/whisper"@],
        LocalTool::Piper => seq![".venv/Scripts/piper.exe"@, ".venv/Scripts/piper"@, ".venv/bin/piper"@],
        LocalTool::F5Tts => seq![
            ".venv/Scripts/f5-tts_infer-cli.exe"@,
            ".venv/Scripts/f5-tts_infer-cli"@,
            ".venv/bin/f5-tts_infer-cli"@,
        ],
    }
}

/// Where a tool may be, from one start: each virtual-environment location searched
/// upwards, and for Whisper also a `whisper.exe` near the start.
pub open spec fn tool_candidates_at(start: Seq<char>, t: LocalTool) -> Seq<Seq<char>> {
    let r = tool_relatives(t);
    join_all(ancestors(start), r[0]) + join_all(ancestors(start), r[1]) + join_all(ancestors(start), r[2])
        + if t == LocalTool::Whisper {
        nearby_candidates_spec(start, "whisper.exe"@)
    } else {
        Seq::empty()
    }
}

/// Where a tool may be, from every start in turn.
pub open spec fn tool_candidates_from(starts: Seq<Seq<char>>, t: LocalTool) -> Seq<Seq<char>>
    decreases starts.len(),
{
    if starts.len() == 0 {
        Seq::empty()
    } else {
        tool_candidates_at(starts[0], t) + tool_candidates_from(starts.drop_first(), t)
    }
}

fn tool_relative_strs(t: LocalTool) -> (r: (&'static str, &'static str, &'static str))
    ensures
        seq![r.0@, r.1@, r.2@] == tool_relatives(t),
{
    match t {
        LocalTool::Python => (".venv/Scripts/python.exe", ".venv/Scripts/python", ".venv/bin/python"),
        LocalTool::Whisper => (".venv/Scripts/whisper.exe", ".venv/Scripts/whisper", ".venv/bin/whisper"),
        LocalTool::Piper => (".venv/Scripts/piper.exe", ".venv/Scripts/piper", ".venv/bin/piper"),
        LocalTool::F5Tts => (
            ".venv/Scripts/f5-tts_infer-cli.exe",
            ".venv/Scripts/f5-tts_infer-cli",
            ".venv/bin/f5-tts_infer-cli",
        ),
    }
}

/// Every place a tool may be, in search order.
pub fn tool_candidates(env: &HostEnv, t: LocalTool) -> (r: Vec<String>)
    ensures
        views(r@) == tool_candidates_from(search_starts(env@), t),
{
    let starts = starts_of(env);
    let (a, b, c) = tool_relative_strs(t);
    let mut out: Vec<String> = Vec::new();
    let mut k: usize = 0;
    assert(views(out@) =~= Seq::<Seq<char>>::empty());
    assert(views(starts@).skip(0) =~= views(starts@));
    while k < starts.len()
        invariant
            k <= starts@.len(),
            seq![a@, b@, c@] == tool_relatives(t),
            views(out@) + tool_candidates_from(views(starts@).skip(k as int), t) == tool_candidates_from(views(starts@), t),
        decreases starts@.len() - k,
    {
        let ghost rest = views(starts@).skip(k as int);
        let ghost before = views(out@);
        assert(rest[0] == starts@[k as int]@);
        assert(rest.drop_first() =~= views(starts@).skip(k + 1));
        let s = starts[k].as_str();
        append_strings(&mut out, upward_candidates(s, a));
        append_strings(&mut out, upward_candidates(s, b));
        append_strings(&mut out, upward_candidates(s, c));
        if t == LocalTool::Whisper {
            append_strings(&mut out, nearby_candidates(s, "whisper.exe"));
        }
        assert(views(out@) =~= before + tool_candidates_at(rest[0], t));
        k = k + 1;
    }
    assert(views(starts@).skip(k as int) =~= Seq::<Seq<char>>::empty());
    assert(views(out@) =~= tool_candidates_from(views(starts@), t));
    out
}

/// Where a tool is, if it is in the project's virtual environment.
pub fn default_local_tool(env: &HostEnv, t: LocalTool, present: &Vec<String>) -> (r: Option<String>)
    ensures
        opt_view(r) == first_present(tool_candidates_from(search_starts(env@), t), views(present@)),
{
    let cands = tool_candidates(env, t);
    find_first_present(&cands, present)
}

/// The project's Python interpreter.
pub fn default_local_python(env: &HostEnv, present: &Vec<String>) -> (r: Option<String>)
    ensures
        opt_view(r) == first_present(tool_candidates_from(search_starts(env@), LocalTool::Python), views(present@)),
{
    default_local_tool(env, LocalTool::Python, present)
}

/// The project's Whisper executable.
pub fn default_local_whisper(env: &HostEnv, present: &Vec<String>) -> (r: Option<String>)
    ensures
        opt_view(r) == first_present(tool_candidates_from(search_starts(env@), LocalTool::Whisper), views(present@)),
{
    default_local_tool(env, LocalTool::Whisper, present)
}

/// The project's piper executable.
pub fn default_local_piper(env: &HostEnv, present: &Vec<String>) -> (r: Option<String>)
    ensures
        opt_view(r) == first_present(tool_candidates_from(search_starts(env@), LocalTool::Piper), views(present@)),
{
    default_local_tool(env, LocalTool::Piper, present)
}

/// The project's f5-tts command.
pub fn default_local_f5tts(env: &HostEnv, present: &Vec<String>) -> (r: Option<String>)
    ensures
        opt_view(r) == first_present(tool_candidates_from(search_starts(env@), LocalTool::F5Tts), views(present@)),
{
    default_local_tool(env, LocalTool::F5Tts, present)
}

/// The folders a voice may be in: the download folder, the project root's `models` and the
/// root itself, the working directory's `models/tts`, `models` and itself, the executable
/// directory's `models/tts` and itself.
pub open spec fn tts_dirs(env: HostView, root: Option<Seq<char>>) -> Seq<Seq<char>> {
    seq![tts_models_root_spec(root)] + match root {
        Some(r) => seq![join_spec(r, "models"@), r],
        None => Seq::empty(),
    } + match env.cwd {
        Some(c) => seq![join_spec(join_spec(c, "models"@), "tts"@), join_spec(c, "models"@), c],
        None => Seq::empty(),
    } + match env.exe_dir {
        Some(e) => seq![join_spec(join_spec(e, "models"@), "tts"@), e],
        None => Seq::empty(),
    }
}

/// The model file in the first folder holding both the voice's model and its description.
pub open spec fn first_dir_with_both(
    dirs: Seq<Seq<char>>,
    onnx: Seq<char>,
    json: Seq<char>,
    present: Seq<Seq<char>>,
) -> Option<Seq<char>>
    decreases dirs.len(),
{
    if dirs.len() == 0 {
        None
    } else if present.contains(join_spec(dirs[0], onnx)) && present.contains(join_spec(dirs[0], json)) {
        Some(join_spec(dirs[0], onnx))
    } else {
        first_dir_with_both(dirs.drop_first(), onnx, json, present)
    }
}

/// The voice's model file, if the model and its description are on disk together.
pub open spec fn find_tts_model_file_spec(
    model: Seq<char>,
    env: HostView,
    root: Option<Seq<char>>,
    present: Seq<Seq<char>>,
) -> Option<Seq<char>> {
    first_dir_with_both(tts_dirs(env, root), model + ".onnx"@, model + ".onnx.json"@, present)
}

fn tts_dirs_of(env: &HostEnv, root: &Option<String>) -> (r: Vec<String>)
    ensures
        views(r@) == tts_dirs(env@, opt_view(*root)),
{
    let mut out: Vec<String> = Vec::new();
    out.push(tts_models_root(root));
    match root {
        Some(r) => {
            out.push(path_join(r.as_str(), "models"));
            out.push(r.clone());
        },
        None => {},
    }
    match &env.cwd {
        Some(c) => {
            let m = path_join(c.as_str(), "models");
            out.push(path_join(m.as_str(), "tts"));
            out.push(m);
            out.push(c.clone());
        },
        None => {},
    }
    match &env.exe_dir {
        Some(e) => {
            let m = path_join(e.as_str(), "models");
            out.push(path_join(m.as_str(), "tts"));
            out.push(e.clone());
        },
        None => {},
    }
    assert(views(out@) =~= tts_dirs(env@, opt_view(*root)));
    out
}

/// Every path the voice search may look at: each folder's model and description files.
pub open spec fn tts_candidates_from(dirs: Seq<Seq<char>>, onnx: Seq<char>, json: Seq<char>) -> Seq<Seq<char>>
    decreases dirs.len(),
{
    if dirs.len() == 0 {
        Seq::empty()
    } else {
        seq![join_spec(dirs[0], onnx), join_spec(dirs[0], json)] + tts_candidates_from(dirs.drop_first(), onnx, json)
    }
}

/// Every path the voice search for `model` may look at.
pub fn tts_model_candidates(model: &str, env: &HostEnv, root: &Option<String>) -> (r: Vec<String>)
    ensures
        views(r@) == tts_candidates_from(tts_dirs(env@, opt_view(*root)), model@ + ".onnx"@, model@ + ".onnx.json"@),
{
    let onnx = String::from_str(model).concat(".onnx");
    let json = String::from_str(model).concat(".onnx.json");
    let dirs = tts_dirs_of(env, root);
    let mut out: Vec<String> = Vec::new();
    let mut k: usize = 0;
    assert(views(out@) =~= Seq::<Seq<char>>::empty());
    assert(views(dirs@).skip(0) =~= views(dirs@));
    while k < dirs.len()
        invariant
            k <= dirs@.len(),
            views(out@) + tts_candidates_from(views(dirs@).skip(k as int), onnx@, json@)
                == tts_candidates_from(views(dirs@), onnx@, json@),
        decreases dirs@.len() - k,
    {
        let ghost rest = views(dirs@).skip(k as int);
        let ghost before = views(out@);
        assert(rest[0] == dirs@[k as int]@);
        assert(rest.drop_first() =~= views(dirs@).skip(k + 1));
        let a = path_join(dirs[k].as_str(), onnx.as_str());
        let b = path_join(dirs[k].as_str(), json.as_str());
        out.push(a);
        out.push(b);
        assert(views(out@) =~= before + seq![join_spec(rest[0], onnx@), join_spec(rest[0], json@)]);
        k = k + 1;
    }
    assert(views(dirs@).skip(k as int) =~= Seq::<Seq<char>>::empty());
    assert(views(out@) =~= tts_candidates_from(views(dirs@), onnx@, json@));
    out
}

/// The model file of voice `model`, from the first folder holding both its model and its
/// description.
pub fn find_tts_model_file(model: &str, env: &HostEnv, root: &Option<String>, present: &Vec<String>) -> (r: Option<String>)
    ensures
        opt_view(r) == find_tts_model_file_spec(model@, env@, opt_view(*root), views(present@)),
{
    let onnx = String::from_str(model).concat(".onnx");
    let json = String::from_str(model).concat(".onnx.json");
    let dirs = tts_dirs_of(env, root);
    let mut k: usize = 0;
    assert(views(dirs@).skip(0) =~= views(dirs@));
    while k < dirs.len()
        invariant
            k <= dirs@.len(),
            views(dirs@) == tts_dirs(env@, opt_view(*root)),
            onnx@ == model@ + ".onnx"@,
            json@ == model@ + ".onnx.json"@,
            first_dir_with_both(views(dirs@).skip(k as int), onnx@, json@, views(present@))
                == first_dir_with_both(views(dirs@), onnx@, json@, views(present@)),
        decreases dirs@.len() - k,
    {
        let ghost rest = views(dirs@).skip(k as int);
        assert(rest[0] == dirs@[k as int]@);
        assert(rest.drop_first() =~= views(dirs@).skip(k + 1));
        let a = path_join(dirs[k].as_str(), onnx.as_str());
        let b = path_join(dirs[k].as_str(), json.as_str());
        if is_present(present, &a) && is_present(present, &b) {
            return Some(a);
        }
        k = k + 1;
    }
    assert(views(dirs@).skip(k as int) =~= Seq::<Seq<char>>::empty());
    None
}

/// Whether voice `model` is on disk.
pub fn tts_model_is_available(model: &str, env: &HostEnv, root: &Option<String>, present: &Vec<String>) -> (r: bool)
    ensures
        r == find_tts_model_file_spec(model@, env@, opt_view(*root), views(present@)) is Some,
{
    find_tts_model_file(model, env, root, present).is_some()
}

} // verus!
