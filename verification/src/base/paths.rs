//! Application directory resolution.
//!
//! | Directory | Base (first match wins)                           |
//! |-----------|---------------------------------------------------|
//! | config    | `$XDG_CONFIG_HOME`, else `$HOME/.config`          |
//! | data      | `$XDG_DATA_HOME`, else `$HOME/.local/share`       |
//! | cache     | `$XDG_CACHE_HOME`, else `$HOME/.cache`            |
//! | runtime   | `$XDG_RUNTIME_DIR`, else `$TMPDIR/handfast-{uid}` |
use super::APP_NAME;
use crate::plugins::battery;
use crate::text;
use vstd::prelude::*;

verus! {

/// `child` below `base`: an absolute child stands for itself.
pub open spec fn below(base: Seq<char>, child: Seq<char>) -> Seq<char> {
    if base.len() == 0 || (child.len() > 0 && child[0] == '/') {
        child
    } else if base.last() == '/' {
        base + child
    } else {
        base + seq!['/'] + child
    }
}

/// The path of `child` below `base`.
pub fn join(base: &str, child: &str) -> (r: String)
    ensures
        r@ == below(base@, child@),
{
    let b = text::to_chars(base);
    let c = text::to_chars(child);
    if b.len() == 0 || (c.len() > 0 && c[0] == '/') {
        return child.to_owned();
    }
    let mut out = base.to_owned();
    if b[b.len() - 1] != '/' {
        out.push('/');
        assert(out@ =~= base@ + seq!['/']);
    }
    out.concat(child)
}

/// The last component of a path: empty and `.` parts do not count, and `..`
/// is no name.
pub open spec fn file_name_of(path: Seq<char>) -> Option<Seq<char>> {
    last_name(text::split(path, seq!['/']))
}

/// The last part that is neither empty nor `.`, unless it is `..`.
pub open spec fn last_name(parts: Seq<Seq<char>>) -> Option<Seq<char>>
    decreases parts.len(),
{
    if parts.len() == 0 {
        None
    } else if parts.last().len() == 0 || parts.last() == seq!['.'] {
        last_name(parts.drop_last())
    } else if parts.last() == seq!['.', '.'] {
        None
    } else {
        Some(parts.last())
    }
}

/// Whether `s` is the text `.`.
fn is_dot(s: &str) -> (r: bool)
    ensures
        r == (s@ == seq!['.']),
{
    let chars = text::to_chars(s);
    let r = chars.len() == 1 && chars[0] == '.';
    assert(r ==> s@ =~= seq!['.']);
    r
}

/// Whether `s` is the text `..`.
fn is_dot_dot(s: &str) -> (r: bool)
    ensures
        r == (s@ == seq!['.', '.']),
{
    let chars = text::to_chars(s);
    let r = chars.len() == 2 && chars[0] == '.' && chars[1] == '.';
    assert(r ==> s@ =~= seq!['.', '.']);
    r
}

/// The last component of a path.
pub fn file_name(path: &str) -> (r: Option<String>)
    ensures
        match r {
            Some(name) => file_name_of(path@) == Some(name@),
            None => file_name_of(path@) is None,
        },
{
    let slash: [char; 1] = ['/'];
    assert(slash@ =~= seq!['/']);
    let parts = text::split_text(path, &slash);
    let ghost views = text::texts(parts@);
    let mut to: usize = parts.len();
    assert(views.take(to as int) =~= views);
    while to > 0
        invariant
            to <= parts.len(),
            views == text::texts(parts@),
            views == text::split(path@, seq!['/']),
            last_name(views) == last_name(views.take(to as int)),
        decreases to,
    {
        proof {
            assert(views.take(to as int).drop_last() =~= views.take(to - 1));
            assert(views.take(to as int).last() == parts@[to - 1]@);
        }
        let part = parts[to - 1].as_str();
        if !part.is_empty() && !is_dot(part) {
            if is_dot_dot(part) {
                return None;
            }
            return Some(part.to_owned());
        }
        to -= 1;
    }
    None
}

/// The environment that directories are resolved in; `S` is the type of its
/// texts.
#[derive(Debug)]
pub struct Environment<S = String> {
    /// `$HOME`.
    pub home: Option<S>,
    /// `$XDG_CONFIG_HOME`.
    pub config_home: Option<S>,
    /// `$XDG_DATA_HOME`.
    pub data_home: Option<S>,
    /// `$XDG_CACHE_HOME`.
    pub cache_home: Option<S>,
    /// `$XDG_RUNTIME_DIR`.
    pub runtime_dir: Option<S>,
    /// Directory for temporary files.
    pub temp_dir: S,
    /// Effective user id, where it is known.
    pub uid: Option<u32>,
}

impl View for Environment<String> {
    type V = Environment<Seq<char>>;

    open spec fn view(&self) -> Environment<Seq<char>> {
        Environment {
            home: battery::optional_text(self.home),
            config_home: battery::optional_text(self.config_home),
            data_home: battery::optional_text(self.data_home),
            cache_home: battery::optional_text(self.cache_home),
            runtime_dir: battery::optional_text(self.runtime_dir),
            temp_dir: self.temp_dir@,
            uid: self.uid,
        }
    }
}

/// Resolved application directories; `S` is the type of their texts.
#[derive(Debug, Clone, PartialEq, Eq)]
pub struct Paths<S = String> {
    /// Persistent configuration.
    pub config: S,
    /// Persistent state such as the database.
    pub data: S,
    /// Regenerable caches.
    pub cache: S,
    /// Sockets and other files that must not survive a reboot.
    pub runtime: S,
}

impl View for Paths<String> {
    type V = Paths<Seq<char>>;

    open spec fn view(&self) -> Paths<Seq<char>> {
        Paths {
            config: self.config@,
            data: self.data@,
            cache: self.cache@,
            runtime: self.runtime@,
        }
    }
}

/// A variable that is set and not empty, or else `fallback`.
pub open spec fn set_or(var: Option<Seq<char>>, fallback: Seq<char>) -> Seq<char> {
    match var {
        Some(v) if v.len() > 0 => v,
        _ => fallback,
    }
}

/// The name of the per-user directory for sockets.
pub open spec fn user_dir_name(uid: Option<u32>) -> Seq<char> {
    match uid {
        Some(n) => APP_NAME@ + "-"@ + text::decimal(n as nat),
        None => APP_NAME@,
    }
}

/// The directories that an environment resolves to.
pub open spec fn resolved(env: Environment<Seq<char>>) -> Paths<Seq<char>> {
    let home = set_or(env.home, env.temp_dir);
    Paths {
        config: below(set_or(env.config_home, below(home, ".config"@)), APP_NAME@),
        data: below(set_or(env.data_home, below(home, ".local/share"@)), APP_NAME@),
        cache: below(set_or(env.cache_home, below(home, ".cache"@)), APP_NAME@),
        runtime: set_or(env.runtime_dir, below(env.temp_dir, user_dir_name(env.uid))),
    }
}

fn pick(var: &Option<String>, fallback: String) -> (r: String)
    ensures
        r@ == set_or(battery::optional_text(*var), fallback@),
{
    match var {
        Some(v) => if v.as_str().is_empty() {
            fallback
        } else {
            v.clone()
        },
        None => fallback,
    }
}

impl Paths<String> {
    /// Resolves the four directories.
    pub fn resolve(env: &Environment) -> (r: Paths)
        ensures
            r@ == resolved(env@),
    {
        let user_dir = match env.uid {
            Some(uid) => APP_NAME.to_owned().concat("-").concat(
                text::decimal_text(uid as u128).as_str(),
            ),
            None => APP_NAME.to_owned(),
        };
        let home = pick(&env.home, env.temp_dir.clone());
        let config = pick(&env.config_home, join(home.as_str(), ".config"));
        let data = pick(&env.data_home, join(home.as_str(), ".local/share"));
        let cache = pick(&env.cache_home, join(home.as_str(), ".cache"));
        let runtime = pick(&env.runtime_dir, join(env.temp_dir.as_str(), user_dir.as_str()));
        Paths {
            config: join(config.as_str(), APP_NAME),
            data: join(data.as_str(), APP_NAME),
            cache: join(cache.as_str(), APP_NAME),
            runtime,
        }
    }
}

/// Mode of the directories that only their owner may look into.
pub const PRIVATE_MODE: u32 = 0o700;

/// Something that is done about a directory; `S` is the type of its text.
#[derive(Debug, Clone, PartialEq, Eq)]
pub enum DirStep<S = String> {
    /// Create it, and what leads to it, where it is not there.
    Create(S),
    /// Set its mode to [`PRIVATE_MODE`].
    Restrict(S),
}

impl View for DirStep<String> {
    type V = DirStep<Seq<char>>;

    open spec fn view(&self) -> DirStep<Seq<char>> {
        match self {
            DirStep::Create(dir) => DirStep::Create(dir@),
            DirStep::Restrict(dir) => DirStep::Restrict(dir@),
        }
    }
}

/// What a list of steps says.
pub open spec fn dir_steps_view(v: Seq<DirStep>) -> Seq<DirStep<Seq<char>>> {
    v.map_values(|s: DirStep| s@)
}

/// How the directories are set up: each is created, and configuration and
/// state are then private.
pub open spec fn setup_steps(p: Paths<Seq<char>>) -> Seq<DirStep<Seq<char>>> {
    seq![
        DirStep::Create(p.config),
        DirStep::Create(p.data),
        DirStep::Create(p.cache),
        DirStep::Create(p.runtime),
        DirStep::Restrict(p.config),
        DirStep::Restrict(p.data),
    ]
}

impl Paths<String> {
    /// Resolves the directories and says how they are set up.
    pub fn init(env: &Environment) -> (r: (Paths, Vec<DirStep>))
        ensures
            r.0@ == resolved(env@),
            dir_steps_view(r.1@) == setup_steps(resolved(env@)),
    {
        let paths = Paths::resolve(env);
        let steps = vec![
            DirStep::Create(paths.config.clone()),
            DirStep::Create(paths.data.clone()),
            DirStep::Create(paths.cache.clone()),
            DirStep::Create(paths.runtime.clone()),
            DirStep::Restrict(paths.config.clone()),
            DirStep::Restrict(paths.data.clone()),
        ];
        assert(dir_steps_view(steps@) =~= setup_steps(resolved(env@)));
        (paths, steps)
    }
}

/// The modes of the directories after a step that succeeds; one that is
/// created gets the mode `fresh`.
pub open spec fn after_dir_step(
    modes: Map<Seq<char>, u32>,
    step: DirStep<Seq<char>>,
    fresh: u32,
) -> Map<Seq<char>, u32> {
    match step {
        DirStep::Create(dir) => if modes.contains_key(dir) {
            modes
        } else {
            modes.insert(dir, fresh)
        },
        DirStep::Restrict(dir) => modes.insert(dir, PRIVATE_MODE),
    }
}

/// The modes of the directories after steps, one after the other.
pub open spec fn after_dir_steps(
    modes: Map<Seq<char>, u32>,
    steps: Seq<DirStep<Seq<char>>>,
    fresh: u32,
) -> Map<Seq<char>, u32>
    decreases steps.len(),
{
    if steps.len() == 0 {
        modes
    } else {
        after_dir_step(after_dir_steps(modes, steps.drop_last(), fresh), steps.last(), fresh)
    }
}

proof fn lemma_six_dir_steps(
    modes: Map<Seq<char>, u32>,
    s: Seq<DirStep<Seq<char>>>,
    fresh: u32,
)
    requires
        s.len() == 6,
    ensures
        after_dir_steps(modes, s, fresh) == after_dir_step(
            after_dir_step(
                after_dir_step(
                    after_dir_step(
                        after_dir_step(after_dir_step(modes, s[0], fresh), s[1], fresh),
                        s[2],
                        fresh,
                    ),
                    s[3],
                    fresh,
                ),
                s[4],
                fresh,
            ),
            s[5],
            fresh,
        ),
{
    reveal_with_fuel(after_dir_steps, 7);
}

/// Once the directories are set up, all four are there, and configuration and
/// state are private; setting them up again changes nothing.
pub proof fn law_setup_is_idempotent(
    env: Environment<Seq<char>>,
    modes: Map<Seq<char>, u32>,
    fresh: u32,
)
    ensures
        ({
            let p = resolved(env);
            let once = after_dir_steps(modes, setup_steps(p), fresh);
            &&& once.contains_key(p.config) && once[p.config] == PRIVATE_MODE
            &&& once.contains_key(p.data) && once[p.data] == PRIVATE_MODE
            &&& once.contains_key(p.cache) && once.contains_key(p.runtime)
            &&& after_dir_steps(once, setup_steps(p), fresh) == once
        }),
{
    let p = resolved(env);
    let once = after_dir_steps(modes, setup_steps(p), fresh);
    lemma_six_dir_steps(modes, setup_steps(p), fresh);
    lemma_six_dir_steps(once, setup_steps(p), fresh);
    assert(after_dir_steps(once, setup_steps(p), fresh) =~= once);
}

/// The effective uid that a line of a process status gives.
pub open spec fn uid_in_fields(fields: Seq<char>) -> Option<u32> {
    let found = text::words(fields);
    if found.len() < 2 {
        None
    } else {
        match text::number(found[1]) {
            Some(n) if 0 <= n <= 0xffff_ffff && found[1][0] != '-' => Some(n as u32),
            _ => None,
        }
    }
}

/// The effective uid that the lines of a process status give: the second
/// field of the first `Uid:` line.
pub open spec fn uid_in_lines(lines: Seq<Seq<char>>) -> Option<u32>
    decreases lines.len(),
{
    if lines.len() == 0 {
        None
    } else if text::has_prefix(lines[0], "Uid:"@) {
        uid_in_fields(lines[0].skip("Uid:"@.len() as int))
    } else {
        uid_in_lines(lines.drop_first())
    }
}

/// Reads the effective uid out of the text of `/proc/self/status`. The fields
/// of the `Uid:` line are the real, effective, saved and filesystem uid.
pub fn uid_of_status(status: &str) -> (r: Option<u32>)
    ensures
        r == uid_in_lines(text::split(status@, seq!['\n'])),
{
    let newline: [char; 1] = ['\n'];
    assert(newline@ =~= seq!['\n']);
    let lines = text::split_text(status, &newline);
    let ghost views = text::texts(lines@);
    let mut i: usize = 0;
    assert(views.skip(0) =~= views);
    while i < lines.len()
        invariant
            i <= lines.len(),
            views == text::texts(lines@),
            views == text::split(status@, seq!['\n']),
            uid_in_lines(views) == uid_in_lines(views.skip(i as int)),
        decreases lines.len() - i,
    {
        proof {
            assert(views.skip(i as int)[0] == lines@[i as int]@);
            assert(views.skip(i as int).drop_first() =~= views.skip(i + 1));
        }
        if let Some(rest) = text::strip_prefix(lines[i].as_str(), "Uid:") {
            return uid_field(rest.as_str());
        }
        i += 1;
    }
    None
}

fn uid_field(fields: &str) -> (r: Option<u32>)
    ensures
        r == uid_in_fields(fields@),
{
    let found = text::split_words(fields);
    assert(text::texts(found@).len() == found@.len());
    if found.len() < 2 {
        return None;
    }
    assert(text::texts(found@)[1] == found@[1]@);
    match text::parse_unsigned(found[1].as_str(), 0xffff_ffff) {
        Some(n) => Some(n as u32),
        None => None,
    }
}

/// A child lies behind exactly one slash below its base; an absolute child
/// stands for itself.
pub proof fn law_children_lie_below_their_base(base: Seq<char>, child: Seq<char>)
    requires
        base.len() > 0,
        child.len() > 0,
    ensures
        child[0] == '/' ==> below(base, child) == child,
        child[0] != '/' && base.last() != '/' ==> below(base, child) == base + seq!['/'] + child,
        child[0] != '/' && base.last() == '/' ==> below(base, child) == base + child,
{
}

/// The name of a file is what follows the last slash of its path, also where
/// the path ends with a slash.
pub proof fn law_file_names_follow_the_last_slash(dir: Seq<char>, name: Seq<char>)
    requires
        name.len() > 0,
        name != seq!['.'],
        name != seq!['.', '.'],
        forall|i: int| 0 <= i < name.len() ==> #[trigger] name[i] != '/',
    ensures
        file_name_of(dir + seq!['/'] + name) == Some(name),
        file_name_of(name) == Some(name),
        file_name_of(dir + seq!['/'] + name + seq!['/']) == Some(name),
{
    let seps = seq!['/'];
    assert(seps[0] == '/');
    assert forall|i: int| 0 <= i < name.len() implies !seps.contains(#[trigger] name[i]) by {
        assert(name[i] != '/');
    }
    text::law_parts_lie_between_separators(dir, '/', name, seps);
    let path = dir + seq!['/'] + name;
    text::law_parts_lie_between_separators(path, '/', Seq::empty(), seps);
    assert(path + seq!['/'] + Seq::<char>::empty() =~= path + seq!['/']);
    assert(seq![name].last() == name);
    let parts = text::split(dir, seps).push(name);
    assert(parts.last() == name);
    assert(parts.push(Seq::empty()).drop_last() =~= parts);
    assert(parts.push(Seq::empty()).last().len() == 0);
}

/// Each directory follows its own variable where that is set; otherwise
/// configuration, data and cache lie below the home directory, each in its
/// own place, and the runtime directory among the temporary files under the
/// name of the user.
pub proof fn law_directories_follow_their_variables(env: Environment<Seq<char>>, dir: Seq<char>)
    requires
        dir.len() > 0,
    ensures
        env.config_home == Some(dir) ==> resolved(env).config == below(dir, "handfast"@),
        env.data_home == Some(dir) ==> resolved(env).data == below(dir, "handfast"@),
        env.cache_home == Some(dir) ==> resolved(env).cache == below(dir, "handfast"@),
        env.runtime_dir == Some(dir) ==> resolved(env).runtime == dir,
        env.config_home is None && env.home == Some(dir) ==> resolved(env).config == below(
            below(dir, ".config"@),
            "handfast"@,
        ),
        env.data_home is None && env.home == Some(dir) ==> resolved(env).data == below(
            below(dir, ".local/share"@),
            "handfast"@,
        ),
        env.cache_home is None && env.home == Some(dir) ==> resolved(env).cache == below(
            below(dir, ".cache"@),
            "handfast"@,
        ),
        env.runtime_dir is None ==> (env.uid matches Some(n) ==> resolved(env).runtime == below(
            env.temp_dir,
            "handfast"@ + "-"@ + text::decimal(n as nat),
        )),
{
}

/// The effective user is the second number of the line about users; lines in
/// front of it do not matter.
pub proof fn law_the_second_number_is_the_effective_user(
    before: Seq<Seq<char>>,
    fields: Seq<char>,
    after: Seq<Seq<char>>,
    n: nat,
)
    requires
        forall|i: int|
            0 <= i < before.len() ==> !text::has_prefix(#[trigger] before[i], "Uid:"@),
        text::words(fields).len() >= 2,
        text::words(fields)[1] == text::decimal(n),
        n <= 0xffff_ffff,
    ensures
        uid_in_lines(before + seq!["Uid:"@ + fields] + after) == Some(n as u32),
    decreases before.len(),
{
    let line = "Uid:"@ + fields;
    let lines = before + seq![line] + after;
    if before.len() == 0 {
        reveal_strlit("Uid:");
        assert(lines[0] == line);
        assert(line.take(4) =~= "Uid:"@);
        assert(line.skip(4) =~= fields);
        text::law_numbers_read_back(n);
        text::lemma_decimal_reads_back(n);
        text::lemma_first_digit(text::decimal(n));
    } else {
        let rest = before.drop_first();
        assert forall|i: int| 0 <= i < rest.len() implies !text::has_prefix(
            #[trigger] rest[i],
            "Uid:"@,
        ) by {
            assert(rest[i] == before[i + 1]);
        }
        assert(lines[0] == before[0]);
        assert(lines.drop_first() =~= rest + seq![line] + after);
        law_the_second_number_is_the_effective_user(rest, fields, after, n);
    }
}

} // verus!
