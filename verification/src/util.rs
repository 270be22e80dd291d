//! Service addresses, the places where state is kept, and the clock.

use crate::text;
use vstd::prelude::*;
use vstd::string::*;

verus! {

/// Where the job service listens by default.
pub const DEFAULT_JOB_ADDR: &'static str = "127.0.0.1:50051";

/// Where the toolchain service listens by default.
pub const DEFAULT_TOOLCHAIN_ADDR: &'static str = "127.0.0.1:50052";

/// Where the project service listens by default.
pub const DEFAULT_PROJECT_ADDR: &'static str = "127.0.0.1:50053";

/// Where the build service listens by default.
pub const DEFAULT_BUILD_ADDR: &'static str = "127.0.0.1:50054";

/// Where the targets service listens by default.
pub const DEFAULT_TARGETS_ADDR: &'static str = "127.0.0.1:50055";

/// Where the observe service listens by default.
pub const DEFAULT_OBSERVE_ADDR: &'static str = "127.0.0.1:50056";

/// Where the workflow service listens by default.
pub const DEFAULT_WORKFLOW_ADDR: &'static str = "127.0.0.1:50057";

/// The value that the environment gives, or `default` where it gives none.
pub open spec fn addr_or(value: Option<Seq<char>>, default: Seq<char>) -> Seq<char> {
    match value {
        Some(v) => v,
        None => default,
    }
}

/// The text of an optional string slice.
pub open spec fn opt_str(o: Option<&str>) -> Option<Seq<char>> {
    match o {
        Some(s) => Some(s@),
        None => None,
    }
}

/// An optional text without ownership of it.
pub fn text_ref(o: &Option<String>) -> (r: Option<&str>)
    ensures
        opt_str(r) == text::opt_text(*o),
{
    match o {
        Some(s) => Some(s.as_str()),
        None => None,
    }
}

/// A service's address: what its environment variable holds, or else `default`.
pub fn env_addr(value: Option<&str>, default: &str) -> (r: String)
    ensures
        r@ == addr_or(opt_str(value), default@),
{
    match value {
        Some(v) => v.to_owned(),
        None => default.to_owned(),
    }
}

/// The job service's address, given what `AADK_JOB_ADDR` holds.
pub fn job_addr(value: Option<&str>) -> (r: String)
    ensures
        r@ == addr_or(opt_str(value), "127.0.0.1:50051"@),
{
    env_addr(value, DEFAULT_JOB_ADDR)
}

/// The toolchain service's address, given what `AADK_TOOLCHAIN_ADDR` holds.
pub fn toolchain_addr(value: Option<&str>) -> (r: String)
    ensures
        r@ == addr_or(opt_str(value), "127.0.0.1:50052"@),
{
    env_addr(value, DEFAULT_TOOLCHAIN_ADDR)
}

/// The project service's address, given what `AADK_PROJECT_ADDR` holds.
pub fn project_addr(value: Option<&str>) -> (r: String)
    ensures
        r@ == addr_or(opt_str(value), "127.0.0.1:50053"@),
{
    env_addr(value, DEFAULT_PROJECT_ADDR)
}

/// The build service's address, given what `AADK_BUILD_ADDR` holds.
pub fn build_addr(value: Option<&str>) -> (r: String)
    ensures
        r@ == addr_or(opt_str(value), "127.0.0.1:50054"@),
{
    env_addr(value, DEFAULT_BUILD_ADDR)
}

/// The target service's address, given what `AADK_TARGETS_ADDR` holds.
pub fn targets_addr(value: Option<&str>) -> (r: String)
    ensures
        r@ == addr_or(opt_str(value), "127.0.0.1:50055"@),
{
    env_addr(value, DEFAULT_TARGETS_ADDR)
}

/// The observe service's address, given what `AADK_OBSERVE_ADDR` holds.
pub fn observe_addr(value: Option<&str>) -> (r: String)
    ensures
        r@ == addr_or(opt_str(value), "127.0.0.1:50056"@),
{
    env_addr(value, DEFAULT_OBSERVE_ADDR)
}

/// The workflow service's address, given what `AADK_WORKFLOW_ADDR` holds.
pub fn workflow_addr(value: Option<&str>) -> (r: String)
    ensures
        r@ == addr_or(opt_str(value), "127.0.0.1:50057"@),
{
    env_addr(value, DEFAULT_WORKFLOW_ADDR)
}

/// The URL under which a service is reached.
pub fn endpoint(addr: &str) -> (r: String)
    ensures
        r@ == "http://"@ + addr@,
{
    text::cat2("http://", addr)
}

/// `child` under the directory `base`: an absolute `child` stands for itself, and exactly one
/// slash parts the two otherwise.
pub open spec fn joined_path(base: Seq<char>, child: Seq<char>) -> Seq<char> {
    if child.len() > 0 && child[0] == '/' {
        child
    } else if base.len() == 0 || base.last() == '/' {
        base + child
    } else {
        base + "/"@ + child
    }
}

/// `child` under the directory `base`.
pub fn join_path(base: &str, child: &str) -> (r: String)
    ensures
        r@ == joined_path(base@, child@),
{
    let n: usize = child.unicode_len();
    if n > 0 && child.get_char(0) == '/' {
        return child.to_owned();
    }
    let m: usize = base.unicode_len();
    if m == 0 || base.get_char(m - 1) == '/' {
        text::cat2(base, child)
    } else {
        text::cat3(base, "/", child)
    }
}

/// Where all data is kept: under the home directory, or under `/tmp` without one.
pub open spec fn data_dir_path(home: Option<Seq<char>>) -> Seq<char> {
    match home {
        Some(h) => joined_path(h, ".local/share/aadk"@),
        None => "/tmp/aadk"@,
    }
}

/// Where all data is kept, given what `HOME` holds.
pub fn data_dir(home: Option<&str>) -> (r: String)
    ensures
        r@ == data_dir_path(opt_str(home)),
{
    match home {
        Some(h) => join_path(h, ".local/share/aadk"),
        None => "/tmp/aadk".to_owned(),
    }
}

/// The directory of the state files.
pub open spec fn state_dir_path(home: Option<Seq<char>>) -> Seq<char> {
    joined_path(data_dir_path(home), "state"@)
}

/// The directory of the state files, given what `HOME` holds.
pub fn state_dir(home: Option<&str>) -> (r: String)
    ensures
        r@ == state_dir_path(opt_str(home)),
{
    join_path(data_dir(home).as_str(), "state")
}

/// The path of the state file with this name, given what `HOME` holds.
pub fn state_file_path(home: Option<&str>, file_name: &str) -> (r: String)
    ensures
        r@ == joined_path(state_dir_path(opt_str(home)), file_name@),
{
    join_path(state_dir(home).as_str(), file_name)
}

/// The path with a leading `~` replaced by the home directory, where there is one.
pub open spec fn expanded_user(path: Seq<char>, home: Option<Seq<char>>) -> Seq<char> {
    match home {
        Some(h) => if path == "~"@ {
            joined_path(h, Seq::empty())
        } else if text::has_prefix(path, "~/"@) {
            joined_path(h, path.skip(2))
        } else {
            path
        },
        None => path,
    }
}

/// The path with a leading `~` replaced by the home directory, given what `HOME` holds.
pub fn expand_user(path: &str, home: Option<&str>) -> (r: String)
    ensures
        r@ == expanded_user(path@, opt_str(home)),
{
    proof {
        reveal_strlit("~");
        reveal_strlit("~/");
        reveal_strlit("");
        assert(""@ =~= Seq::<char>::empty());
    }
    if let Some(h) = home {
        if text::text_eq(path, "~") {
            return join_path(h, "");
        }
        if let Some(rest) = text::strip_prefix(path, "~/") {
            return join_path(h, rest);
        }
    }
    path.to_owned()
}

/// The pieces of a path that name something: neither empty nor a single dot.
pub open spec fn named_pieces(pieces: Seq<Seq<char>>) -> Seq<Seq<char>>
    decreases pieces.len(),
{
    if pieces.len() == 0 {
        Seq::empty()
    } else {
        let before = named_pieces(pieces.drop_last());
        if pieces.last().len() == 0 || pieces.last() == "."@ {
            before
        } else {
            before.push(pieces.last())
        }
    }
}

/// The last name in a path; nothing where there is none or it is `..`.
pub open spec fn last_name(path: Seq<char>) -> Option<Seq<char>> {
    let names = named_pieces(text::split_char(path, '/'));
    if names.len() == 0 || names.last() == ".."@ {
        None
    } else {
        Some(names.last())
    }
}

/// The last name in a path; nothing where there is none or it is `..`.
pub fn file_name(path: &str) -> (r: Option<String>)
    ensures
        text::opt_text(r) == last_name(path@),
{
    let pieces: Vec<String> = text::split(path, '/');
    let ghost all = text::texts(pieces@);
    let mut i: usize = pieces.len();
    assert(all.take(i as int) =~= all);
    while i > 0
        invariant
            i <= pieces@.len(),
            all == text::texts(pieces@),
            named_pieces(all) == named_pieces(all.take(i as int)),
        ensures
            i == 0 || (all[i - 1].len() > 0 && all[i - 1] != "."@),
        decreases i,
    {
        let piece: &String = &pieces[i - 1];
        assert(all.take(i as int).last() == all[i - 1]);
        assert(all.take(i as int).drop_last() =~= all.take(i - 1));
        if piece.as_str().is_empty() || text::text_eq(piece.as_str(), ".") {
            i = i - 1;
        } else {
            break;
        }
    }
    if i == 0 {
        return None;
    }
    assert(all.take(i as int).last() == all[i - 1]);
    if text::text_eq(pieces[i - 1].as_str(), "..") {
        None
    } else {
        Some(pieces[i - 1].clone())
    }
}

/// The time since 1970-01-01 in milliseconds, or nothing where the clock stands before that day
/// (`SystemTime::elapsed` of the epoch). Nothing is promised of a clock's reading.
#[verifier::external_body]
fn clock_millis() -> (r: Option<u128>)
{
    match std::time::UNIX_EPOCH.elapsed() {
        Ok(since) => Some(since.as_millis()),
        Err(_) => None,
    }
}

/// A clock's reading as a 64-bit number, and zero for one before 1970-01-01.
pub fn millis_of(reading: Option<u128>) -> (r: i64)
    ensures
        r == match reading {
            Some(ms) => ms as i64,
            None => 0i64,
        },
{
    match reading {
        Some(ms) => ms as i64,
        None => 0,
    }
}

/// The current time in milliseconds since 1970-01-01.
pub fn now_millis() -> (r: i64)
{
    millis_of(clock_millis())
}

/// Where an export of a job goes by default: a file in the state directory, named after the job
/// and the time.
pub open spec fn export_path_at(
    home: Option<Seq<char>>,
    prefix: Seq<char>,
    job_id: Seq<char>,
    now: i64,
) -> Seq<char> {
    joined_path(
        state_dir_path(home),
        prefix + "-"@ + job_id + "-"@ + text::dec_int(now as int) + ".json"@,
    )
}

/// Where an export of a job goes by default, at the time `now`.
pub fn default_export_path_at(home: Option<&str>, prefix: &str, job_id: &str, now: i64) -> (r:
    String)
    ensures
        r@ == export_path_at(opt_str(home), prefix@, job_id@, now),
{
    let mut name: String = text::cat5(prefix, "-", job_id, "-", text::i64_text(now).as_str());
    name.append(".json");
    join_path(state_dir(home).as_str(), name.as_str())
}

/// Where an export of a job goes by default.
pub fn default_export_path(home: Option<&str>, prefix: &str, job_id: &str) -> (r: String)
    ensures
        exists|now: i64| r@ == #[trigger] export_path_at(opt_str(home), prefix@, job_id@, now),
{
    let now: i64 = now_millis();
    default_export_path_at(home, prefix, job_id, now)
}

/// A path joined to another stands below it: the whole begins with the one and ends with the other,
/// with one slash between, unless the second is absolute and then stands alone.
pub proof fn law_joined_path(base: Seq<char>, child: Seq<char>)
    ensures
        ({
            let whole = joined_path(base, child);
            let absolute = child.len() > 0 && child[0] == '/';
            &&& child.is_suffix_of(whole)
            &&& absolute ==> whole == child
            &&& !absolute ==> base.is_prefix_of(whole)
            &&& !absolute && base.len() > 0 ==> whole[whole.len() - child.len() - 1] == '/'
            &&& !absolute && base.len() > 0 && base.last() == '/' ==> whole.len() == base.len()
                + child.len()
            &&& !absolute && base.len() > 0 && base.last() != '/' ==> whole.len() == base.len()
                + child.len() + 1
            &&& base.len() == 0 ==> whole == child
        }),
{
    reveal_strlit("/");
    let whole = joined_path(base, child);
    assert(whole.skip(whole.len() - child.len()) =~= child);
    if !(child.len() > 0 && child[0] == '/') {
        assert(whole.take(base.len() as int) =~= base);
    }
}

proof fn lemma_named_pieces_last(pieces: Seq<Seq<char>>, name: Seq<char>)
    requires
        name.len() > 0,
        name != "."@,
    ensures
        named_pieces(pieces.push(name)).len() > 0,
        named_pieces(pieces.push(name)).last() == name,
{
    assert(pieces.push(name).drop_last() =~= pieces);
}

/// The last name of a path is what was joined to it last, if that is a name: neither empty, nor one
/// or two dots, nor itself a path.
pub proof fn law_last_name(dir: Seq<char>, name: Seq<char>)
    requires
        name.len() > 0,
        name != "."@,
        name != ".."@,
        !name.contains('/'),
    ensures
        last_name(joined_path(dir, name)) == Some(name),
{
    reveal_strlit("/");
    let whole = joined_path(dir, name);
    assert(name[0] != '/') by {
        assert(name.contains(name[0]));
    }
    text::law_split_without_separator(name, '/');
    if dir.len() == 0 {
        assert(whole =~= name);
        assert(text::split_char(whole, '/') =~= Seq::<Seq<char>>::empty().push(name));
        lemma_named_pieces_last(Seq::empty(), name);
    } else {
        let head = if dir.last() == '/' {
            dir.drop_last()
        } else {
            dir
        };
        assert(whole =~= head + seq!['/'] + name);
        text::law_split_at_separator(head, name, '/');
        assert(text::split_char(whole, '/') =~= text::split_char(head, '/').push(name));
        lemma_named_pieces_last(text::split_char(head, '/'), name);
    }
}

/// A path that begins with a tilde and a slash is what follows in the home directory, the tilde alone
/// is the home directory; any other path, and every path where there is no home, stays as it is.
pub proof fn law_expanded_user(path: Seq<char>, home: Seq<char>)
    requires
        home.len() > 0,
    ensures
        expanded_user(path, None) == path,
        !text::has_prefix(path, "~"@) ==> expanded_user(path, Some(home)) == path,
        path == "~"@ ==> home.is_prefix_of(expanded_user(path, Some(home))),
        text::has_prefix(path, "~/"@) && !(path.len() > 2 && path[2] == '/') ==> {
            &&& home.is_prefix_of(expanded_user(path, Some(home)))
            &&& path.skip(2).is_suffix_of(expanded_user(path, Some(home)))
        },
{
    reveal_strlit("~");
    reveal_strlit("~/");
    law_joined_path(home, Seq::empty());
    law_joined_path(home, path.skip(2));
    text::law_prefix_and_suffix(path, "~"@);
    text::law_prefix_and_suffix(path, "~/"@);
    if text::has_prefix(path, "~/"@) {
        assert(path.take(2) =~= "~/"@);
        assert(path[0] == '~');
        assert(path.take(1) =~= "~"@);
    }
}

/// Everything that is kept stands below the home directory, or below the directory for what is
/// passing where there is no home; and the state stands below that.
pub proof fn law_places(home: Option<Seq<char>>)
    ensures
        home matches Some(h) ==> h.is_prefix_of(data_dir_path(home)),
        home is None ==> data_dir_path(home) == "/tmp/aadk"@,
        home matches Some(h) ==> last_name(data_dir_path(home)) == Some("aadk"@),
        data_dir_path(home).is_prefix_of(state_dir_path(home)),
        last_name(state_dir_path(home)) == Some("state"@),
{
    reveal_strlit(".local/share/aadk");
    reveal_strlit("aadk");
    reveal_strlit("/");
    reveal_strlit("state");
    reveal_strlit(".");
    reveal_strlit("..");
    law_joined_path(data_dir_path(home), "state"@);
    assert(!"state"@.contains('/'));
    law_last_name(data_dir_path(home), "state"@);
    if home is Some {
        let h = home->0;
        law_joined_path(h, ".local/share/aadk"@);
        reveal_strlit(".local/share");
        assert(".local/share/aadk"@ =~= ".local/share"@ + "/"@ + "aadk"@);
        let above = joined_path(h, ".local/share"@);
        assert(above.last() == 'e');
        assert(data_dir_path(home) =~= joined_path(above, "aadk"@));
        assert(!"aadk"@.contains('/'));
        law_last_name(above, "aadk"@);
    }
}

/// Where an export is written by itself, it stands with the state, and its name holds what is
/// exported, the job's id and the time.
pub proof fn law_export_path(
    home: Option<Seq<char>>,
    prefix: Seq<char>,
    job_id: Seq<char>,
    now: i64,
)
    requires
        prefix.len() > 0,
        prefix[0] != '/',
    ensures
        state_dir_path(home).is_prefix_of(export_path_at(home, prefix, job_id, now)),
        (prefix + "-"@ + job_id + "-"@ + text::dec_int(now as int) + ".json"@).is_suffix_of(
            export_path_at(home, prefix, job_id, now),
        ),
{
    law_joined_path(
        state_dir_path(home),
        prefix + "-"@ + job_id + "-"@ + text::dec_int(now as int) + ".json"@,
    );
}

} // verus!
