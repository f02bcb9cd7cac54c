//! The toolchain resolver and driver invoker.
//!
//! Resolution selects exactly one driver binary compatible with the
//! orchestrator, trying candidates in a fixed priority order — explicit
//! override, then the expected default toolchain, then a driver adjacent
//! to the orchestrator's own binary — with the first success winning and
//! every failure accumulated, so that total exhaustion reports one entry
//! per attempted candidate, in attempt order.
//!
//! The invoker prepares the build commands that route a whole workspace's
//! compilation through the resolved driver; launching them is the
//! caller's part, as is every probe of the outside world: the resolver is
//! driven as a state machine, fed one probe outcome at a time.

use vstd::prelude::*;

verus! {

/// Whether a character counts as surrounding whitespace when parsing tool
/// output.
pub open spec fn spec_is_ws(c: char) -> bool {
    c == ' ' || c == '\t' || c == '\n' || c == '\r'
}

/// A text without its leading whitespace.
pub open spec fn spec_trim_start(s: Seq<char>) -> Seq<char>
    decreases s.len(),
{
    if s.len() > 0 && spec_is_ws(s[0]) {
        spec_trim_start(s.drop_first())
    } else {
        s
    }
}

/// A text without its trailing whitespace.
pub open spec fn spec_trim_end(s: Seq<char>) -> Seq<char>
    decreases s.len(),
{
    if s.len() > 0 && spec_is_ws(s.last()) {
        spec_trim_end(s.drop_last())
    } else {
        s
    }
}

/// A text without its surrounding whitespace.
pub open spec fn spec_trim(s: Seq<char>) -> Seq<char> {
    spec_trim_end(spec_trim_start(s))
}

fn is_ws(c: char) -> (r: bool)
    ensures
        r == spec_is_ws(c),
{
    c == ' ' || c == '\t' || c == '\n' || c == '\r'
}

/// Removes surrounding whitespace from a text.
pub fn trim_whitespace(s: &str) -> (r: String)
    ensures
        r@ == spec_trim(s@),
{
    let n = s.unicode_len();
    let mut i: usize = 0;
    proof {
        assert(s@.skip(0) =~= s@);
    }
    while i < n && is_ws(s.get_char(i))
        invariant
            n == s@.len(),
            0 <= i <= n,
            spec_trim_start(s@) == spec_trim_start(s@.skip(i as int)),
        decreases n - i,
    {
        proof {
            assert(s@.skip(i as int)[0] == s@[i as int]);
            assert(s@.skip(i as int).drop_first() =~= s@.skip(i as int + 1));
        }
        i += 1;
    }
    proof {
        if i < n {
            assert(s@.skip(i as int)[0] == s@[i as int]);
        }
        assert(spec_trim_start(s@) == s@.skip(i as int));
    }
    let mut j: usize = n;
    proof {
        assert(s@.subrange(i as int, n as int) =~= s@.skip(i as int));
    }
    while j > i && is_ws(s.get_char(j - 1))
        invariant
            n == s@.len(),
            0 <= i <= j <= n,
            spec_trim_end(s@.subrange(i as int, n as int)) == spec_trim_end(
                s@.subrange(i as int, j as int),
            ),
        decreases j,
    {
        proof {
            assert(s@.subrange(i as int, j as int).last() == s@[j as int - 1]);
            assert(s@.subrange(i as int, j as int).drop_last() =~= s@.subrange(
                i as int,
                j as int - 1,
            ));
        }
        j -= 1;
    }
    proof {
        if j > i {
            assert(s@.subrange(i as int, j as int).last() == s@[j as int - 1]);
        }
        assert(spec_trim_end(s@.subrange(i as int, j as int)) == s@.subrange(i as int, j as int));
    }
    s.substring_char(i, j).to_owned()
}

/// One reason a resolution candidate failed.
#[derive(Debug)]
pub enum ResolveError {
    /// A launched external tool exited non-zero; carries its captured
    /// standard-error text.
    Subprocess { stderr: String },
    /// A filesystem or path failure.
    Io { message: String },
    /// No driver binary was found at the probed path.
    NotFound { path: String },
}

impl Clone for ResolveError {
    fn clone(&self) -> (r: Self)
        ensures
            r == *self,
    {
        match self {
            ResolveError::Subprocess { stderr } => ResolveError::Subprocess {
                stderr: stderr.clone(),
            },
            ResolveError::Io { message } => ResolveError::Io { message: message.clone() },
            ResolveError::NotFound { path } => ResolveError::NotFound { path: path.clone() },
        }
    }
}

/// Every toolchain-search candidate failed: one entry per attempted
/// candidate, in attempt order.
#[derive(Debug)]
pub struct ResolutionFailure {
    pub attempts: Vec<ResolveError>,
}

/// Parses the outcome of a `which`-style query against the toolchain
/// multiplexer: on success exactly one filesystem path, trimmed of
/// whitespace, from standard output; on failure the captured
/// standard-error text, verbatim.
pub fn parse_which_output(success: bool, stdout: &str, stderr: &str) -> (r: Result<
    String,
    ResolveError,
>)
    ensures
        success ==> (r matches Ok(p) && p@ == spec_trim(stdout@)),
        !success ==> (r matches Err(e) && (e matches ResolveError::Subprocess { stderr: s2 }
            && s2@ == stderr@)),
{
    if success {
        Ok(trim_whitespace(stdout))
    } else {
        Err(ResolveError::Subprocess { stderr: stderr.to_owned() })
    }
}

/// The parent of a path's text, as camino computes it.
pub uninterp spec fn parent_of(p: Seq<char>) -> Option<Seq<char>>;

/// Relies on camino's `Utf8Path::parent`: the parent directory is a pure
/// function of the path text, absent for a root or a lone prefix.
#[verifier::external_body]
fn path_parent(p: &str) -> (r: Option<String>)
    ensures
        match r {
            Some(q) => parent_of(p@) == Some(q@),
            None => parent_of(p@) is None,
        },
{
    camino::Utf8Path::new(p).parent().map(|q| q.as_str().to_owned())
}

/// A path with its final component replaced, as camino computes it.
pub uninterp spec fn with_file_name_of(p: Seq<char>, name: Seq<char>) -> Seq<char>;

/// Relies on camino's `Utf8Path::with_file_name`: the result is a pure
/// function of the path text and the new file name.
#[verifier::external_body]
fn path_with_file_name(p: &str, name: &str) -> (r: String)
    ensures
        r@ == with_file_name_of(p@, name@),
{
    camino::Utf8Path::new(p).with_file_name(name).into_string()
}

/// The name of the driver binary the orchestrator looks for.
pub fn marker_driver_bin_name() -> (r: String)
    ensures
        r@ == "marker_rustc_driver"@,
{
    String::from_str("marker_rustc_driver")
}

/// Climbs from a toolchain's build-tool binary to the toolchain's root
/// directory: two parent steps, failing if the path does not have enough
/// ancestors.
pub fn get_toolchain_folder(toolchain_cargo: &str) -> (r: Result<String, ResolveError>)
    ensures
        match parent_of(toolchain_cargo@) {
            Some(p1) => match parent_of(p1) {
                Some(p2) => r matches Ok(q) && q@ == p2,
                None => r is Err,
            },
            None => r is Err,
        },
        r matches Err(e) ==> e is Io,
{
    let p1 = match path_parent(toolchain_cargo) {
        Some(p) => p,
        None => {
            return Err(ResolveError::Io {
                message: String::from_str(
                    "unexpected layout of the toolchain binary dir: not enough ancestors",
                ),
            });
        },
    };
    match path_parent(p1.as_str()) {
        Some(p2) => Ok(p2),
        None => Err(ResolveError::Io {
            message: String::from_str(
                "unexpected layout of the toolchain binary dir: not enough ancestors",
            ),
        }),
    }
}

/// A command the invoker has prepared: a program, its arguments in order,
/// and the environment entries it must run with.
#[derive(Debug)]
pub struct CommandSpec {
    pub program: String,
    pub args: Vec<String>,
    pub envs: Vec<(String, String)>,
}

/// The build tool a resolved toolchain runs, possibly pinned to a named
/// toolchain.
#[derive(Debug)]
pub struct Cargo {
    pub toolchain: Option<String>,
}

impl Clone for Cargo {
    fn clone(&self) -> (r: Self)
        ensures
            r == *self,
    {
        match &self.toolchain {
            Some(t) => Cargo { toolchain: Some(t.clone()) },
            None => Cargo { toolchain: None },
        }
    }
}

impl Default for Cargo {
    /// The build tool of the active environment, with no pinned toolchain.
    fn default() -> (r: Self)
        ensures
            r.toolchain is None,
    {
        Cargo { toolchain: None }
    }
}

impl Cargo {
    /// A build tool pinned to the named toolchain.
    pub fn with_toolchain(toolchain: String) -> (r: Self)
        ensures
            r.toolchain == Some(toolchain),
    {
        Cargo { toolchain: Some(toolchain) }
    }

    /// The base build-tool invocation: `cargo`, with a `+<toolchain>`
    /// selector when a toolchain is pinned.
    pub fn command(&self) -> (r: CommandSpec)
        ensures
            r.program@ == "cargo"@,
            r.envs@.len() == 0,
            match self.toolchain {
                Some(t) => r.args@.len() == 1 && r.args@[0]@ == "+"@ + t@,
                None => r.args@.len() == 0,
            },
    {
        let mut args: Vec<String> = Vec::new();
        match &self.toolchain {
            Some(t) => {
                args.push(String::from_str("+").concat(t.as_str()));
            },
            None => {},
        }
        CommandSpec { program: String::from_str("cargo"), args, envs: Vec::new() }
    }
}

/// The configuration the invoker builds plugin crates under.
#[derive(Debug)]
pub struct Config {
    /// Whether to build plugins without optimizations.
    pub debug_build: bool,
    /// Raw compiler flags passed through the build environment.
    pub build_rustc_flags: String,
    /// The isolated target directory for plugin artifacts, kept apart
    /// from the user's own build output.
    pub marker_target_dir: String,
}

impl Config {
    /// The isolated target directory for plugin artifacts.
    pub fn markers_target_dir(&self) -> (r: &String)
        ensures
            r == &self.marker_target_dir,
    {
        &self.marker_target_dir
    }
}

/// A resolved driver: the driver binary's path and the build tool of the
/// toolchain it belongs to.
#[derive(Debug)]
pub struct Toolchain {
    pub driver_path: String,
    pub cargo: Cargo,
}

impl Toolchain {
    /// The build-tool invocation that routes every compiled unit of a
    /// workspace through the resolved driver, by naming it as the
    /// universal compiler wrapper.
    pub fn cargo_with_driver(&self) -> (r: CommandSpec)
        ensures
            r.program@ == "cargo"@,
            match self.cargo.toolchain {
                Some(t) => r.args@.len() == 1 && r.args@[0]@ == "+"@ + t@,
                None => r.args@.len() == 0,
            },
            r.envs@.len() == 1,
            r.envs@[0].0@ == "RUSTC_WORKSPACE_WRAPPER"@,
            r.envs@[0].1@ == self.driver_path@,
    {
        let mut cmd = self.cargo.command();
        cmd.envs.push((String::from_str("RUSTC_WORKSPACE_WRAPPER"), self.driver_path.clone()));
        cmd
    }

    /// The build invocation for the plugin crates: the given manifest,
    /// the isolated target directory, an optimized build unless a debug
    /// build was asked for, and the caller's raw compiler flags in the
    /// build environment.
    pub fn cargo_build_command(&self, config: &Config, manifest: &str) -> (r: CommandSpec)
        ensures
            r.program@ == "cargo"@,
            ({
                let pre: int = if self.cargo.toolchain is Some {
                    1int
                } else {
                    0int
                };
                &&& (self.cargo.toolchain matches Some(t) ==> r.args@[0]@ == "+"@ + t@)
                &&& r.args@.len() == pre + 5 + (if config.debug_build {
                    0int
                } else {
                    1int
                })
                &&& r.args@[pre]@ == "build"@
                &&& r.args@[pre + 1]@ == "--manifest-path"@
                &&& r.args@[pre + 2]@ == manifest@
                &&& r.args@[pre + 3]@ == "--target-dir"@
                &&& r.args@[pre + 4]@ == config.marker_target_dir@
                &&& (!config.debug_build ==> r.args@[pre + 5]@ == "--release"@)
            }),
            r.envs@.len() == 1,
            r.envs@[0].0@ == "RUSTFLAGS"@,
            r.envs@[0].1@ == config.build_rustc_flags@,
    {
        let mut cmd = self.cargo.command();
        cmd.args.push(String::from_str("build"));
        cmd.args.push(String::from_str("--manifest-path"));
        cmd.args.push(manifest.to_owned());
        cmd.args.push(String::from_str("--target-dir"));
        cmd.args.push(config.marker_target_dir.clone());
        if !config.debug_build {
            cmd.args.push(String::from_str("--release"));
        }
        cmd.envs.push((String::from_str("RUSTFLAGS"), config.build_rustc_flags.clone()));
        cmd
    }

    /// Begins the driver search for this invocation: in local mode only
    /// the adjacent-binary candidate is tried; otherwise an environment
    /// override comes first, then the orchestrator's expected default
    /// toolchain, then the adjacent-binary fallback.  The caller probes
    /// each candidate in turn and feeds the outcome to
    /// [`DriverSearch::step`].
    pub fn try_find_toolchain(
        local_mode: bool,
        env_toolchain: Option<String>,
        default_toolchain: String,
    ) -> (r: DriverSearch)
        ensures
            r.candidates@ == spec_plan(local_mode, env_toolchain, default_toolchain),
            r.next == 0,
            r.errors@.len() == 0,
            r.wf(),
    {
        DriverSearch::new(local_mode, env_toolchain, default_toolchain)
    }
}

/// Builds a resolved toolchain from the outcome of a driver lookup for a
/// named toolchain.
pub fn search_driver(toolchain: &str, which_outcome: Result<String, ResolveError>) -> (r: Result<
    Toolchain,
    ResolveError,
>)
    ensures
        match which_outcome {
            Ok(p) => r matches Ok(tc) && tc.driver_path == p && (tc.cargo.toolchain matches Some(
                t,
            ) && t@ == toolchain@),
            Err(e) => r == Err::<Toolchain, _>(e),
        },
{
    match which_outcome {
        Ok(driver_path) => Ok(
            Toolchain { driver_path, cargo: Cargo::with_toolchain(toolchain.to_owned()) },
        ),
        Err(e) => Err(e),
    }
}

/// The path where a driver adjacent to the orchestrator's own binary
/// would stand.
pub fn adjacent_driver_path(current_exe: &str) -> (r: String)
    ensures
        r@ == with_file_name_of(current_exe@, "marker_rustc_driver"@),
{
    let name = marker_driver_bin_name();
    path_with_file_name(current_exe, name.as_str())
}

/// Decides the adjacent-binary candidate from the probed path and whether
/// a file exists there: a driver found next to the orchestrator runs with
/// the active environment's build tool.
pub fn search_next_to_cargo_marker(driver_path: String, is_file: bool) -> (r: Result<
    Toolchain,
    ResolveError,
>)
    ensures
        is_file ==> (r matches Ok(tc) && tc.driver_path == driver_path && tc.cargo.toolchain
            is None),
        !is_file ==> (r matches Err(e) && (e matches ResolveError::NotFound { path } && path
            == driver_path)),
{
    if is_file {
        Ok(Toolchain { driver_path, cargo: Cargo { toolchain: None } })
    } else {
        Err(ResolveError::NotFound { path: driver_path })
    }
}

/// One candidate of the driver search.
#[derive(Debug)]
pub enum Candidate {
    /// Resolve a driver for the named toolchain through the toolchain
    /// multiplexer.
    Toolchain(String),
    /// Look for a driver next to the orchestrator's own binary.
    AdjacentToBinary,
}

impl Clone for Candidate {
    fn clone(&self) -> (r: Self)
        ensures
            r == *self,
    {
        match self {
            Candidate::Toolchain(t) => Candidate::Toolchain(t.clone()),
            Candidate::AdjacentToBinary => Candidate::AdjacentToBinary,
        }
    }
}

/// The candidates the search will try, in attempt order.
pub open spec fn spec_plan(
    local_mode: bool,
    env_toolchain: Option<String>,
    default_toolchain: String,
) -> Seq<Candidate> {
    if local_mode {
        seq![Candidate::AdjacentToBinary]
    } else {
        (match env_toolchain {
            Some(t) => seq![Candidate::Toolchain(t)],
            None => Seq::empty(),
        }) + seq![Candidate::Toolchain(default_toolchain), Candidate::AdjacentToBinary]
    }
}

/// What one search step answers.
#[derive(Debug)]
pub enum SearchStep {
    /// This candidate's driver won; the other candidates' recorded
    /// failures are discarded.
    Done(Toolchain),
    /// The candidate failed; its failure is recorded and the next
    /// candidate is up.
    Continue,
    /// Every candidate failed; the aggregated failure is available
    /// through [`DriverSearch::into_failure`].
    Exhausted,
}

/// The driver search in progress: the fixed candidate plan, the next
/// candidate to probe, and every failure recorded so far — one per
/// candidate already attempted, in attempt order.
#[derive(Debug)]
pub struct DriverSearch {
    pub candidates: Vec<Candidate>,
    pub next: usize,
    pub errors: Vec<ResolveError>,
}

impl DriverSearch {
    /// One failure is recorded per candidate already attempted.
    pub open spec fn wf(self) -> bool {
        &&& self.errors@.len() == self.next
        &&& self.next <= self.candidates@.len()
    }

    /// Begins a search over the resolution plan.
    pub fn new(
        local_mode: bool,
        env_toolchain: Option<String>,
        default_toolchain: String,
    ) -> (r: Self)
        ensures
            r.candidates@ == spec_plan(local_mode, env_toolchain, default_toolchain),
            r.next == 0,
            r.errors@.len() == 0,
            r.wf(),
    {
        let mut candidates: Vec<Candidate> = Vec::new();
        if local_mode {
            candidates.push(Candidate::AdjacentToBinary);
            proof {
                assert(candidates@ =~= spec_plan(local_mode, env_toolchain, default_toolchain));
            }
        } else {
            match env_toolchain {
                Some(t) => {
                    candidates.push(Candidate::Toolchain(t));
                },
                None => {},
            }
            candidates.push(Candidate::Toolchain(default_toolchain));
            candidates.push(Candidate::AdjacentToBinary);
            proof {
                assert(candidates@ =~= spec_plan(local_mode, env_toolchain, default_toolchain));
            }
        }
        DriverSearch { candidates, next: 0, errors: Vec::new() }
    }

    /// The candidate to probe next, if any is left.
    pub fn next_candidate(&self) -> (r: Option<&Candidate>)
        ensures
            match r {
                Some(c) => self.next < self.candidates@.len() && *c == self.candidates@[
                    self.next as int],
                None => self.next >= self.candidates@.len(),
            },
    {
        if self.next < self.candidates.len() {
            Some(&self.candidates[self.next])
        } else {
            None
        }
    }

    /// Feeds the probe outcome for the current candidate: the first
    /// success wins and discards the recorded failures; a failure is
    /// recorded and the search continues, or is exhausted once every
    /// candidate has failed.
    pub fn step(&mut self, outcome: Result<Toolchain, ResolveError>) -> (r: SearchStep)
        requires
            old(self).wf(),
            old(self).next < old(self).candidates@.len(),
        ensures
            final(self).wf(),
            final(self).candidates == old(self).candidates,
            match outcome {
                Ok(tc) => r == SearchStep::Done(tc) && *final(self) == *old(self),
                Err(e) => {
                    &&& final(self).next == old(self).next + 1
                    &&& final(self).errors@ == old(self).errors@.push(e)
                    &&& (final(self).next == final(self).candidates@.len() ==> r
                        == SearchStep::Exhausted)
                    &&& (final(self).next < final(self).candidates@.len() ==> r
                        == SearchStep::Continue)
                },
            },
    {
        match outcome {
            Ok(tc) => SearchStep::Done(tc),
            Err(e) => {
                let n = self.candidates.len();
                self.errors.push(e);
                self.next = self.next + 1;
                if self.next == n {
                    SearchStep::Exhausted
                } else {
                    SearchStep::Continue
                }
            },
        }
    }

    /// Surrenders the exhausted search as one aggregated failure, with
    /// exactly one entry per attempted candidate, in attempt order.
    pub fn into_failure(self) -> (r: ResolutionFailure)
        ensures
            r.attempts@ == self.errors@,
    {
        ResolutionFailure { attempts: self.errors }
    }
}

} // verus!
