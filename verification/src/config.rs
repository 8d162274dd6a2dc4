//! Configuration shared by the parts of the pipeline: where the external
//! programs are, which endpoints are used, and the write-once cells that
//! hold a configuration for the life of the process.

use vstd::prelude::*;
use crate::text::{chars_of, string_of};

verus! {

/// The name under which the application keeps its directories.
pub const APPLICATION_NAME: &'static str = "downloader-hub";

/// The organization under which the application keeps its directories.
pub const ORGANIZATION_NAME: &'static str = "allypost";

/// The qualifier under which the application keeps its directories.
pub const ORGANIZATION_QUALIFIER: &'static str = "net";

/// A copy of an optional text.
pub fn copy_text(text: &Option<String>) -> (copy: Option<String>)
    ensures
        copy == *text,
{
    match text {
        Some(t) => Some(t.clone()),
        None => None,
    }
}

/// The configured value where there is one, else the one that was found.
pub fn configured_or_found(configured: Option<String>, found: Option<String>) -> (path: Option<String>)
    ensures
        path == or_else(configured, found),
{
    match configured {
        Some(p) => Some(p),
        None => found,
    }
}

/// `which::which` for the program `name`: the path of the first executable
/// of that name on the search path, as text. What it finds depends on the
/// machine, so nothing is claimed of the result. A path that is not valid
/// Unicode counts as not found.
#[verifier::external_body]
fn find_program(name: &str) -> (path: Option<String>) {
    which::which(name).ok().and_then(|p| p.into_os_string().into_string().ok())
}

/// The paths of the external programs that the providers run.
#[derive(Debug)]
pub struct ProgramPathConfig {
    yt_dlp_path: Option<String>,
    ffmpeg_path: Option<String>,
    ffprobe_path: Option<String>,
    scenedetect_path: Option<String>,
    imagemagick_path: Option<String>,
}

impl Default for ProgramPathConfig {
    fn default() -> (config: ProgramPathConfig)
        ensures
            config.yt_dlp() is None,
            config.ffmpeg() is None,
            config.ffprobe() is None,
            config.scenedetect() is None,
            config.imagemagick() is None,
    {
        ProgramPathConfig {
            yt_dlp_path: None,
            ffmpeg_path: None,
            ffprobe_path: None,
            scenedetect_path: None,
            imagemagick_path: None,
        }
    }
}

impl ProgramPathConfig {
    /// The configured path of `yt-dlp`.
    pub closed spec fn yt_dlp(&self) -> Option<String> {
        self.yt_dlp_path
    }

    /// The configured path of `ffmpeg`.
    pub closed spec fn ffmpeg(&self) -> Option<String> {
        self.ffmpeg_path
    }

    /// The configured path of `ffprobe`.
    pub closed spec fn ffprobe(&self) -> Option<String> {
        self.ffprobe_path
    }

    /// The configured path of `scenedetect`.
    pub closed spec fn scenedetect(&self) -> Option<String> {
        self.scenedetect_path
    }

    /// The configured path of ImageMagick.
    pub closed spec fn imagemagick(&self) -> Option<String> {
        self.imagemagick_path
    }

    /// Whether the three programs that the pipeline cannot do without have a
    /// path.
    pub open spec fn has_required_paths(&self) -> bool {
        self.yt_dlp() is Some && self.ffmpeg() is Some && self.ffprobe() is Some
    }

    /// A configuration with the given paths.
    pub fn new(
        yt_dlp_path: Option<String>,
        ffmpeg_path: Option<String>,
        ffprobe_path: Option<String>,
        scenedetect_path: Option<String>,
        imagemagick_path: Option<String>,
    ) -> (config: ProgramPathConfig)
        ensures
            config.yt_dlp() == yt_dlp_path,
            config.ffmpeg() == ffmpeg_path,
            config.ffprobe() == ffprobe_path,
            config.scenedetect() == scenedetect_path,
            config.imagemagick() == imagemagick_path,
    {
        ProgramPathConfig { yt_dlp_path, ffmpeg_path, ffprobe_path, scenedetect_path, imagemagick_path }
    }

    /// A copy of this configuration.
    pub fn duplicate(&self) -> (copy: ProgramPathConfig)
        ensures
            copy == *self,
    {
        ProgramPathConfig {
            yt_dlp_path: copy_text(&self.yt_dlp_path),
            ffmpeg_path: copy_text(&self.ffmpeg_path),
            ffprobe_path: copy_text(&self.ffprobe_path),
            scenedetect_path: copy_text(&self.scenedetect_path),
            imagemagick_path: copy_text(&self.imagemagick_path),
        }
    }

    /// Whether the three required programs have a path.
    pub fn is_complete(&self) -> (complete: bool)
        ensures
            complete == self.has_required_paths(),
    {
        self.yt_dlp_path.is_some() && self.ffmpeg_path.is_some() && self.ffprobe_path.is_some()
    }

    /// The path of `yt-dlp`, which must be known.
    pub fn yt_dlp_path(&self) -> (path: &str)
        requires
            self.yt_dlp() is Some,
        ensures
            path@ == self.yt_dlp()->0@,
    {
        match &self.yt_dlp_path {
            Some(p) => p.as_str(),
            None => "",
        }
    }

    /// The path of `ffmpeg`, which must be known.
    pub fn ffmpeg_path(&self) -> (path: &str)
        requires
            self.ffmpeg() is Some,
        ensures
            path@ == self.ffmpeg()->0@,
    {
        match &self.ffmpeg_path {
            Some(p) => p.as_str(),
            None => "",
        }
    }

    /// The path of `ffprobe`, which must be known.
    pub fn ffprobe_path(&self) -> (path: &str)
        requires
            self.ffprobe() is Some,
        ensures
            path@ == self.ffprobe()->0@,
    {
        match &self.ffprobe_path {
            Some(p) => p.as_str(),
            None => "",
        }
    }

    /// The path of `scenedetect`, if it is known.
    pub fn scenedetect_path(&self) -> (path: Option<String>)
        ensures
            path == self.scenedetect(),
    {
        copy_text(&self.scenedetect_path)
    }

    /// The path of ImageMagick, if it is known.
    pub fn imagemagick_path(&self) -> (path: Option<String>)
        ensures
            path == self.imagemagick(),
    {
        copy_text(&self.imagemagick_path)
    }

    /// Whether `after` keeps every path that `before` has: a configured path
    /// is never replaced, only a missing one may be filled in.
    pub open spec fn keeps_configured(before: ProgramPathConfig, after: ProgramPathConfig) -> bool {
        &&& before.yt_dlp() is Some ==> after.yt_dlp() == before.yt_dlp()
        &&& before.ffmpeg() is Some ==> after.ffmpeg() == before.ffmpeg()
        &&& before.ffprobe() is Some ==> after.ffprobe() == before.ffprobe()
        &&& before.scenedetect() is Some ==> after.scenedetect() == before.scenedetect()
        &&& before.imagemagick() is Some ==> after.imagemagick() == before.imagemagick()
    }

    /// Whether `after` is `before` with each missing path filled in from what
    /// was found for it, and each configured path as it was.
    pub open spec fn is_filled_from(
        before: ProgramPathConfig,
        after: ProgramPathConfig,
        found: FoundPrograms,
    ) -> bool {
        &&& after.yt_dlp() == or_else(before.yt_dlp(), found.yt_dlp)
        &&& after.ffmpeg() == or_else(before.ffmpeg(), found.ffmpeg)
        &&& after.ffprobe() == or_else(before.ffprobe(), found.ffprobe)
        &&& after.scenedetect() == or_else(before.scenedetect(), found.scenedetect)
        &&& after.imagemagick() == or_else(before.imagemagick(), found.imagemagick)
    }

    /// Fills each missing path in from what was found for it. A configured
    /// path stays as it is.
    pub fn fill_missing(&mut self, found: FoundPrograms)
        ensures
            ProgramPathConfig::is_filled_from(*old(self), *final(self), found),
    {
        if self.yt_dlp_path.is_none() {
            self.yt_dlp_path = found.yt_dlp;
        }
        if self.ffmpeg_path.is_none() {
            self.ffmpeg_path = found.ffmpeg;
        }
        if self.ffprobe_path.is_none() {
            self.ffprobe_path = found.ffprobe;
        }
        if self.scenedetect_path.is_none() {
            self.scenedetect_path = found.scenedetect;
        }
        if self.imagemagick_path.is_none() {
            self.imagemagick_path = found.imagemagick;
        }
    }

    /// Whether `after` is `before` with each missing path as `search` may
    /// return it for the name of its program, and each configured path as it
    /// was.
    pub open spec fn is_resolved_by<F: Fn(&str) -> Option<String>>(
        before: ProgramPathConfig,
        after: ProgramPathConfig,
        search: F,
    ) -> bool {
        &&& is_looked_up(before.yt_dlp(), YT_DLP_PROGRAM, after.yt_dlp(), search)
        &&& is_looked_up(before.ffmpeg(), FFMPEG_PROGRAM, after.ffmpeg(), search)
        &&& is_looked_up(before.ffprobe(), FFPROBE_PROGRAM, after.ffprobe(), search)
        &&& is_looked_up(before.scenedetect(), SCENEDETECT_PROGRAM, after.scenedetect(), search)
        &&& is_looked_up(before.imagemagick(), IMAGEMAGICK_PROGRAM, after.imagemagick(), search)
    }

    /// Fills each missing path in with what `search` returns for the name of
    /// its program: `yt-dlp`, `ffmpeg`, `ffprobe`, `scenedetect` and `magick`.
    /// A configured path stays as it is, and nothing is searched for it.
    pub fn resolve_with<F: Fn(&str) -> Option<String>>(&mut self, search: F)
        requires
            forall|name: &str| call_requires(search, (name,)),
        ensures
            ProgramPathConfig::is_resolved_by(*old(self), *final(self), search),
            ProgramPathConfig::keeps_configured(*old(self), *final(self)),
            exists|found: FoundPrograms|
                ProgramPathConfig::is_filled_from(*old(self), *final(self), found),
    {
        let found = FoundPrograms {
            yt_dlp: look_up_if_missing(&self.yt_dlp_path, YT_DLP_PROGRAM, &search),
            ffmpeg: look_up_if_missing(&self.ffmpeg_path, FFMPEG_PROGRAM, &search),
            ffprobe: look_up_if_missing(&self.ffprobe_path, FFPROBE_PROGRAM, &search),
            scenedetect: look_up_if_missing(&self.scenedetect_path, SCENEDETECT_PROGRAM, &search),
            imagemagick: look_up_if_missing(&self.imagemagick_path, IMAGEMAGICK_PROGRAM, &search),
        };
        self.fill_missing(found);
        assert(ProgramPathConfig::is_filled_from(*old(self), *self, found));
    }

    /// This configuration with the missing paths looked up on the search
    /// path.
    pub fn resolve_paths(self) -> (resolved: ProgramPathConfig)
        ensures
            ProgramPathConfig::keeps_configured(self, resolved),
    {
        let mut resolved = self;
        resolved.with_resolved_paths();
        resolved
    }

    /// Looks up each missing path on the search path, under the name of its
    /// program, and fills it in from what is found. A program that is not
    /// found stays missing.
    pub fn with_resolved_paths(&mut self)
        ensures
            ProgramPathConfig::keeps_configured(*old(self), *final(self)),
            exists|found: FoundPrograms|
                ProgramPathConfig::is_filled_from(*old(self), *final(self), found),
    {
        self.resolve_with(find_program)
    }
}

/// The name under which `yt-dlp` is searched.
pub const YT_DLP_PROGRAM: &'static str = "yt-dlp";

/// The name under which `ffmpeg` is searched.
pub const FFMPEG_PROGRAM: &'static str = "ffmpeg";

/// The name under which `ffprobe` is searched.
pub const FFPROBE_PROGRAM: &'static str = "ffprobe";

/// The name under which `scenedetect` is searched.
pub const SCENEDETECT_PROGRAM: &'static str = "scenedetect";

/// The name under which ImageMagick is searched.
pub const IMAGEMAGICK_PROGRAM: &'static str = "magick";

/// What a search for the external programs found: for each program its
/// path, or nothing.
#[derive(Debug)]
pub struct FoundPrograms {
    pub yt_dlp: Option<String>,
    pub ffmpeg: Option<String>,
    pub ffprobe: Option<String>,
    pub scenedetect: Option<String>,
    pub imagemagick: Option<String>,
}

/// The configured value where there is one, else the one that was found.
pub open spec fn or_else(configured: Option<String>, found: Option<String>) -> Option<String> {
    if configured is Some {
        configured
    } else {
        found
    }
}

/// Whether `after` is the entry `before` once it has been looked up: as it
/// was where it held a path, else what `search` may return for `name`.
pub open spec fn is_looked_up<F: Fn(&str) -> Option<String>>(
    before: Option<String>,
    name: &str,
    after: Option<String>,
    search: F,
) -> bool {
    if before is Some {
        after == before
    } else {
        call_ensures(search, (name,), after)
    }
}

/// Looks the program `name` up with `search`, unless a path is configured
/// for it.
fn look_up_if_missing<F: Fn(&str) -> Option<String>>(
    configured: &Option<String>,
    name: &str,
    search: &F,
) -> (found: Option<String>)
    requires
        call_requires(*search, (name,)),
    ensures
        configured is Some ==> found is None,
        configured is None ==> call_ensures(*search, (name,), found),
{
    if configured.is_none() {
        search(name)
    } else {
        None
    }
}

/// `s` without the occurrences of `c` at its front.
pub open spec fn without_leading(s: Seq<char>, c: char) -> Seq<char>
    decreases s.len(),
{
    if s.len() > 0 && s[0] == c {
        without_leading(s.drop_first(), c)
    } else {
        s
    }
}

/// Removes the occurrences of `c` at the front of `v`.
pub fn strip_leading(v: &Vec<char>, c: char) -> (out: Vec<char>)
    ensures
        out@ == without_leading(v@, c),
{
    let mut i: usize = 0;
    assert(v@.skip(0) == v@);
    while i < v.len() && v[i] == c
        invariant
            i <= v.len(),
            without_leading(v@, c) == without_leading(v@.skip(i as int), c),
        decreases v.len() - i,
    {
        proof {
            assert(v@.skip(i as int).drop_first() == v@.skip(i + 1));
        }
        i += 1;
    }
    let out = crate::text::slice_chars(v, i, v.len());
    proof {
        assert(v@.subrange(i as int, v.len() as int) == v@.skip(i as int));
    }
    out
}

/// The address that `url::Url::join` gives for the base address `base` and
/// the reference `relative`, as text; `None` where `base` is no address or
/// the two do not join.
pub uninterp spec fn joined_url(base: Seq<char>, relative: Seq<char>) -> Option<Seq<char>>;

/// The text of an optional string.
pub open spec fn text_of(s: Option<String>) -> Option<Seq<char>> {
    match s {
        Some(t) => Some(t@),
        None => None,
    }
}

/// `url::Url::join` on the address parsed from `base`, with `relative`.
#[verifier::external_body]
fn url_join(base: &str, relative: &str) -> (joined: Option<String>)
    ensures
        text_of(joined) == joined_url(base@, relative@),
{
    url::Url::parse(base).ok()?.join(relative).ok().map(String::from)
}

/// The endpoints of the services that the providers call.
#[derive(Debug)]
pub struct EndpointConfig {
    /// The base address of the service that takes screenshots of posts.
    pub twitter_screenshot_base_url: String,
    /// The base address of the text recognition service.
    pub ocr_api_base_url: Option<String>,
}

impl EndpointConfig {
    /// A copy of this configuration.
    pub fn duplicate(&self) -> (copy: EndpointConfig)
        ensures
            copy == *self,
    {
        EndpointConfig {
            twitter_screenshot_base_url: self.twitter_screenshot_base_url.clone(),
            ocr_api_base_url: copy_text(&self.ocr_api_base_url),
        }
    }

    /// The address of `path` at the text recognition service: `path` without
    /// the slashes at its front, joined to the base address. There is none
    /// where no base address is configured.
    pub fn ocr_api_url(&self, path: &str) -> (url: Option<String>)
        ensures
            text_of(url) == match self.ocr_api_base_url {
                Some(base) => joined_url(base@, without_leading(path@, '/')),
                None => None,
            },
    {
        match &self.ocr_api_base_url {
            Some(base) => {
                let relative = string_of(&strip_leading(&chars_of(path), '/'));
                url_join(base.as_str(), relative.as_str())
            },
            None => None,
        }
    }
}

/// The options of the background tasks.
#[derive(Debug, Clone, Copy)]
pub struct TaskConfig {
    /// How many seconds lie between two looks for a newer `yt-dlp`; `None`
    /// where no such look is made.
    pub yt_dlp_update_interval: Option<u64>,
}

/// The directories of a project, as the crate `directories` knows them.
#[verifier::external_type_specification]
#[verifier::external_body]
pub struct ExProjectDirs(directories::ProjectDirs);

/// `ProjectDirs::from`: the directories of the named application on this
/// machine, if the machine has a place for them. What they are depends on
/// the machine and its user, so nothing is claimed of the result.
#[verifier::external_body]
fn project_dirs(qualifier: &str, organization: &str, application: &str) -> (dirs: Option<
    directories::ProjectDirs,
>) {
    directories::ProjectDirs::from(qualifier, organization, application)
}

/// `ProjectDirs::config_dir`, as text. A path that is not valid Unicode
/// gives `None`.
#[verifier::external_body]
fn config_dir_of(dirs: &directories::ProjectDirs) -> (path: Option<String>) {
    dirs.config_dir().to_str().map(String::from)
}

/// `ProjectDirs::cache_dir`, as text. A path that is not valid Unicode
/// gives `None`.
#[verifier::external_body]
fn cache_dir_of(dirs: &directories::ProjectDirs) -> (path: Option<String>) {
    dirs.cache_dir().to_str().map(String::from)
}

/// The directory that is used for the cache: the one that was found, else
/// the fallback.
pub fn found_or_fallback(found: Option<String>, fallback: String) -> (dir: String)
    ensures
        dir == match found {
            Some(d) => d,
            None => fallback,
        },
{
    match found {
        Some(d) => d,
        None => fallback,
    }
}

/// Where the project keeps its files.
#[derive(Debug, Clone, Copy)]
pub struct ProjectConfig;

impl ProjectConfig {
    /// The directories of this application on this machine, if the machine
    /// has a place for them.
    pub fn get_project_dir() -> (dirs: Option<directories::ProjectDirs>) {
        project_dirs(ORGANIZATION_QUALIFIER, ORGANIZATION_NAME, APPLICATION_NAME)
    }

    /// The directory of the configuration files, if the machine has one.
    pub fn config_dir() -> (dir: Option<String>) {
        match ProjectConfig::get_project_dir() {
            Some(dirs) => config_dir_of(&dirs),
            None => None,
        }
    }

    /// The directory of the configuration files, if the machine has one.
    pub fn get_config_dir(&self) -> (dir: Option<String>) {
        ProjectConfig::config_dir()
    }

    /// The directory of the cache: that of the project where the machine has
    /// one, else `fallback`.
    pub fn cache_dir(fallback: String) -> (dir: String) {
        let found = match ProjectConfig::get_project_dir() {
            Some(dirs) => cache_dir_of(&dirs),
            None => None,
        };
        found_or_fallback(found, fallback)
    }

    /// The directory of the cache: that of the project where the machine has
    /// one, else `fallback`.
    pub fn get_cache_dir(&self, fallback: String) -> (dir: String) {
        ProjectConfig::cache_dir(fallback)
    }
}

/// In which notation a configuration is written out.
#[derive(Debug, Clone, Copy, PartialEq, Eq)]
pub enum DumpConfigType {
    Json,
    Toml,
}

/// A cell that is written once and read from then on.
#[derive(Debug)]
pub struct OnceConfig<T> {
    slot: Option<T>,
}

impl<T> OnceConfig<T> {
    /// What the cell holds.
    pub closed spec fn value(&self) -> Option<T> {
        self.slot
    }

    /// An empty cell.
    pub fn new() -> (cell: OnceConfig<T>)
        ensures
            cell.value() is None,
    {
        OnceConfig { slot: None }
    }

    /// Whether the cell has been written.
    pub fn is_set(&self) -> (set: bool)
        ensures
            set == self.value() is Some,
    {
        self.slot.is_some()
    }

    /// Writes `conf` into the cell. A cell that has been written keeps what
    /// it holds, and the call fails.
    pub fn set(&mut self, conf: T) -> (done: Result<(), String>)
        ensures
            old(self).value() is None ==> done is Ok && final(self).value() == Some(conf),
            old(self).value() is Some ==> final(self).value() == old(self).value() && (done matches Err(
                e,
            ) && e@ == "Config already initialized"@),
    {
        if self.slot.is_some() {
            Err(string_of(&chars_of("Config already initialized")))
        } else {
            self.slot = Some(conf);
            Ok(())
        }
    }

    /// What the cell holds; it must have been written.
    pub fn get(&self) -> (conf: &T)
        requires
            self.value() is Some,
        ensures
            *conf == self.value()->0,
    {
        self.slot.as_ref().unwrap()
    }
}

/// A configuration that is set once, at startup, and read everywhere.
pub trait GlobalConfig: Sized {
    /// Writes `conf` into `cell`; fails where the cell has been written.
    fn init_global(cell: &mut OnceConfig<Self>, conf: Self) -> (done: Result<(), String>)
        ensures
            old(cell).value() is None ==> done is Ok && final(cell).value() == Some(conf),
            old(cell).value() is Some ==> final(cell).value() == old(cell).value() && (done matches Err(
                e,
            ) && e@ == "Config already initialized"@),
    ;

    /// The configuration in `cell`, which must have been written.
    fn get_global(cell: &OnceConfig<Self>) -> (conf: &Self)
        requires
            cell.value() is Some,
        ensures
            *conf == cell.value()->0,
    ;
}

/// What the providers need to know: the endpoints and the program paths.
#[derive(Debug)]
pub struct ActionsConfig {
    pub endpoint: EndpointConfig,
    pub dependency_paths: ProgramPathConfig,
}

impl GlobalConfig for ActionsConfig {
    fn init_global(cell: &mut OnceConfig<Self>, conf: Self) -> (done: Result<(), String>) {
        cell.set(conf)
    }

    fn get_global(cell: &OnceConfig<Self>) -> (conf: &Self) {
        cell.get()
    }
}

impl ActionsConfig {
    /// The endpoints.
    pub fn endpoints(&self) -> (endpoint: &EndpointConfig)
        ensures
            *endpoint == self.endpoint,
    {
        &self.endpoint
    }

    /// The program paths.
    pub fn dependency_paths(&self) -> (paths: &ProgramPathConfig)
        ensures
            *paths == self.dependency_paths,
    {
        &self.dependency_paths
    }

    /// The directory of the cache: that of the project where the machine has
    /// one, else `fallback`.
    pub fn cache_dir(fallback: String) -> (dir: String) {
        ProjectConfig::cache_dir(fallback)
    }
}

/// Sets the configuration of the providers, once.
pub fn init(
    cell: &mut OnceConfig<ActionsConfig>,
    endpoint: EndpointConfig,
    dependency_paths: ProgramPathConfig,
) -> (done: Result<(), String>)
    ensures
        old(cell).value() is None ==> done is Ok && final(cell).value() == Some(
            ActionsConfig { endpoint, dependency_paths },
        ),
        old(cell).value() is Some ==> final(cell).value() == old(cell).value() && (done matches Err(
            e,
        ) && e@ == "Config already initialized"@),
{
    ActionsConfig::init_global(cell, ActionsConfig { endpoint, dependency_paths })
}

/// What the helpers need to know: the program paths.
#[derive(Debug)]
pub struct HelpersConfig {
    /// The paths of the programs that are run.
    pub dependency_paths: ProgramPathConfig,
}

impl GlobalConfig for HelpersConfig {
    fn init_global(cell: &mut OnceConfig<Self>, conf: Self) -> (done: Result<(), String>) {
        cell.set(conf)
    }

    fn get_global(cell: &OnceConfig<Self>) -> (conf: &Self) {
        cell.get()
    }
}

impl HelpersConfig {
    /// The directory of the cache: that of the project where the machine has
    /// one, else `fallback`.
    pub fn get_cache_dir(&self, fallback: String) -> (dir: String) {
        ProjectConfig::cache_dir(fallback)
    }

    /// The program paths.
    pub fn dependency_paths(&self) -> (paths: &ProgramPathConfig)
        ensures
            *paths == self.dependency_paths,
    {
        &self.dependency_paths
    }
}

impl GlobalConfig for TaskConfig {
    fn init_global(cell: &mut OnceConfig<Self>, conf: Self) -> (done: Result<(), String>) {
        cell.set(conf)
    }

    fn get_global(cell: &OnceConfig<Self>) -> (conf: &Self) {
        cell.get()
    }
}

/// The write-once cells of a program: one for each part that reads a
/// configuration, and one for the program's own.
pub struct Globals<C> {
    pub actions: OnceConfig<ActionsConfig>,
    pub helpers: OnceConfig<HelpersConfig>,
    pub tasks: OnceConfig<TaskConfig>,
    pub config: OnceConfig<C>,
}

impl<C> Globals<C> {
    /// Whether no cell has been written.
    pub open spec fn is_fresh(&self) -> bool {
        &&& self.actions.value() is None
        &&& self.helpers.value() is None
        &&& self.tasks.value() is None
        &&& self.config.value() is None
    }

    /// Cells that have not been written.
    pub fn new() -> (globals: Globals<C>)
        ensures
            globals.is_fresh(),
    {
        Globals {
            actions: OnceConfig::new(),
            helpers: OnceConfig::new(),
            tasks: OnceConfig::new(),
            config: OnceConfig::new(),
        }
    }

    /// Whether every cell holds in `after` what it held in `before`, where
    /// it held something.
    pub open spec fn keeps_written(before: Globals<C>, after: Globals<C>) -> bool {
        &&& before.actions.value() is Some ==> after.actions.value() == before.actions.value()
        &&& before.helpers.value() is Some ==> after.helpers.value() == before.helpers.value()
        &&& before.tasks.value() is Some ==> after.tasks.value() == before.tasks.value()
        &&& before.config.value() is Some ==> after.config.value() == before.config.value()
    }

    /// Whether the cells hold the given parts.
    pub open spec fn holds(
        &self,
        endpoint: EndpointConfig,
        dependency_paths: ProgramPathConfig,
        task: TaskConfig,
        config: C,
    ) -> bool {
        &&& self.actions.value() == Some(ActionsConfig { endpoint, dependency_paths })
        &&& self.helpers.value() == Some(HelpersConfig { dependency_paths })
        &&& self.tasks.value() == Some(task)
        &&& self.config.value() == Some(config)
    }

    /// Writes the cells, in the order providers, helpers, tasks, program.
    /// The first cell that has been written before stops the round with an
    /// error; the cells before it stay written.
    pub fn init_all(
        &mut self,
        endpoint: EndpointConfig,
        dependency_paths: ProgramPathConfig,
        task: TaskConfig,
        config: C,
    ) -> (done: Result<(), String>)
        ensures
            Globals::keeps_written(*old(self), *final(self)),
            old(self).is_fresh() ==> done is Ok,
            done is Ok ==> old(self).is_fresh() && final(self).holds(
                endpoint,
                dependency_paths,
                task,
                config,
            ),
            done matches Err(e) ==> e@ == "Config already initialized"@,
    {
        let paths = dependency_paths.duplicate();
        match self.actions.set(ActionsConfig { endpoint, dependency_paths }) {
            Ok(_) => {},
            Err(e) => {
                return Err(e);
            },
        }
        match self.helpers.set(HelpersConfig { dependency_paths: paths }) {
            Ok(_) => {},
            Err(e) => {
                return Err(e);
            },
        }
        match self.tasks.set(task) {
            Ok(_) => {},
            Err(e) => {
                return Err(e);
            },
        }
        self.config.set(config)
    }
}

} // verus!
