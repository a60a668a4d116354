use vstd::prelude::*;

verus! {

/// The final configuration of the program: the defaults, plus what the
/// configuration files override, plus what the command line overrides, in
/// that order.
#[derive(Debug, Clone)]
pub struct Configuration {
    pub verbose: bool,
    pub directory: String,
}

/// The settings as a configuration file stores them.
#[derive(Debug, Clone)]
pub struct FileConfiguration {
    pub verbose: bool,
    pub names: Vec<String>,
}

/// The name of a configuration file, looked for in each candidate directory.
pub const CONFIG_FILE: &'static str = ".myprog.json";

/// The directory that is searched first for a configuration file.
pub const FIXED_DIRECTORY: &'static str = "/home/phil/somewhere";

/// `name` appended to the path `dir` as one more component: a separator is
/// put between them unless `dir` is empty or already ends in one.
pub open spec fn joined(dir: Seq<char>, name: Seq<char>) -> Seq<char> {
    if dir.len() == 0 {
        name
    } else if dir.last() == '/' {
        dir + name
    } else {
        dir + seq!['/'] + name
    }
}

/// The directories searched for a configuration file, in order: the fixed
/// one, then the executable's directory and the parent of the home
/// directory, each where it is known.
pub open spec fn candidates(exe_dir: Option<Seq<char>>, home_parent: Option<Seq<char>>) -> Seq<Seq<char>> {
    let fixed = seq![FIXED_DIRECTORY@];
    let with_exe = match exe_dir {
        Some(d) => fixed.push(d),
        None => fixed,
    };
    match home_parent {
        Some(d) => with_exe.push(d),
        None => with_exe,
    }
}

/// The path of the configuration file in `directory`.
pub fn config_file_path(directory: &str) -> (path: String)
    ensures
        path@ == joined(directory@, CONFIG_FILE@),
{
    let mut path = String::from_str(directory);
    let n = directory.unicode_len();
    if n > 0 && directory.get_char(n - 1) != '/' {
        path.append("/");
    }
    path.append(CONFIG_FILE);
    proof { reveal_strlit("/"); }
    path
}

/// The characters of an optional string.
pub open spec fn opt_view(s: Option<String>) -> Option<Seq<char>> {
    match s {
        Some(d) => Some(d@),
        None => None,
    }
}

/// The directories to search for a configuration file, in order; `exe_dir`
/// is the directory of the running executable and `home_parent` the parent of
/// the home directory, where they are known.
pub fn candidate_directories(exe_dir: Option<String>, home_parent: Option<String>) -> (dirs: Vec<String>)
    ensures
        dirs@.map_values(|d: String| d@) == candidates(opt_view(exe_dir), opt_view(home_parent)),
{
    let ghost expected = candidates(opt_view(exe_dir), opt_view(home_parent));
    let mut dirs: Vec<String> = Vec::new();
    dirs.push(String::from_str(FIXED_DIRECTORY));
    match exe_dir {
        Some(d) => dirs.push(d),
        None => {},
    }
    match home_parent {
        Some(d) => dirs.push(d),
        None => {},
    }
    proof {
        assert(dirs@.map_values(|d: String| d@) =~= expected);
    }
    dirs
}

/// What became of one attempt to read a configuration file.
#[derive(Debug, Clone)]
pub enum FileLoad {
    /// There is no file at the path: nothing to apply.
    NotFound,
    /// The file was read but does not hold a valid configuration: nothing to
    /// apply.
    Malformed,
    /// The file exists but could not be opened or read, for the given reason.
    Unreadable(String),
    /// The file held this configuration.
    Parsed(FileConfiguration),
}

/// An error that stops the configuration from being built.
#[derive(Debug, Clone)]
pub enum ConfigError {
    /// A configuration file exists but could not be read, for the given reason.
    Unreadable(String),
}

/// The reason of the first unreadable file among `loads`, if there is one.
pub open spec fn first_failure(loads: Seq<FileLoad>) -> Option<Seq<char>>
    decreases loads.len(),
{
    if loads.len() == 0 {
        None
    } else {
        match first_failure(loads.drop_last()) {
            Some(reason) => Some(reason),
            None => match loads.last() {
                FileLoad::Unreadable(reason) => Some(reason@),
                _ => None,
            },
        }
    }
}

/// The verbosity after applying the files of `loads` in order over `start`:
/// the last file that parsed decides.
pub open spec fn verbose_after(start: bool, loads: Seq<FileLoad>) -> bool
    decreases loads.len(),
{
    if loads.len() == 0 {
        start
    } else {
        match loads.last() {
            FileLoad::Parsed(f) => f.verbose,
            _ => verbose_after(start, loads.drop_last()),
        }
    }
}

/// The verbosity that results from the command-line flag and the loaded
/// files, or the reason of the first unreadable file.
pub open spec fn resolved_verbose(verbose_flag: bool, loads: Seq<FileLoad>) -> Result<bool, Seq<char>> {
    match first_failure(loads) {
        Some(reason) => Err(reason),
        None => Ok(verbose_flag || verbose_after(false, loads)),
    }
}

impl Default for Configuration {
    fn default() -> (c: Self)
        ensures
            !c.verbose,
            c.directory@ == Seq::<char>::empty(),
    {
        Configuration { verbose: false, directory: String::new() }
    }
}

impl Default for FileConfiguration {
    fn default() -> (c: Self)
        ensures
            !c.verbose,
            c.names@ == Seq::<String>::empty(),
    {
        FileConfiguration { verbose: false, names: Vec::new() }
    }
}

impl Configuration {
    /// Applies the values of a configuration file over this configuration.
    pub fn merge(&mut self, file_config: &FileConfiguration)
        ensures
            final(self).verbose == file_config.verbose,
            final(self).directory@ == old(self).directory@,
    {
        self.verbose = file_config.verbose;
    }

    /// Applies the outcome of reading one configuration file. A missing or
    /// malformed file changes nothing; an unreadable one is an error.
    pub fn merge_file_config(&mut self, load: &FileLoad) -> (r: Result<(), ConfigError>)
        ensures
            final(self).directory@ == old(self).directory@,
            match load {
                FileLoad::Unreadable(reason) => {
                    &&& r matches Err(ConfigError::Unreadable(e)) && e@ == reason@
                    &&& final(self).verbose == old(self).verbose
                },
                FileLoad::Parsed(f) => r is Ok && final(self).verbose == f.verbose,
                _ => r is Ok && final(self).verbose == old(self).verbose,
            },
    {
        match load {
            FileLoad::NotFound => Ok(()),
            FileLoad::Malformed => Ok(()),
            FileLoad::Unreadable(reason) => Err(ConfigError::Unreadable(reason.clone())),
            FileLoad::Parsed(file_config) => {
                self.merge(file_config);
                Ok(())
            },
        }
    }

    /// Sets the values that the command line gives, over everything else.
    pub fn apply_command_line(&mut self, verbose_flag: bool)
        ensures
            final(self).verbose == (old(self).verbose || verbose_flag),
            final(self).directory@ == old(self).directory@,
    {
        if verbose_flag {
            self.verbose = true;
        }
    }

    /// Builds the configuration from the defaults, the outcomes of reading the
    /// configuration files in the order of their directories, and the
    /// command-line verbosity flag. A later file overrides an earlier one; the
    /// command line overrides every file. The first unreadable file stops the
    /// build.
    pub fn resolve(verbose_flag: bool, loads: &Vec<FileLoad>) -> (r: Result<Configuration, ConfigError>)
        ensures
            match resolved_verbose(verbose_flag, loads@) {
                Ok(v) => r matches Ok(c) && c.verbose == v && c.directory@ == Seq::<char>::empty(),
                Err(reason) => r matches Err(ConfigError::Unreadable(e)) && e@ == reason,
            },
    {
        let mut config = Configuration::default();
        let mut i: usize = 0;
        while i < loads.len()
            invariant
                i <= loads@.len(),
                first_failure(loads@.subrange(0, i as int)) is None,
                config.verbose == verbose_after(false, loads@.subrange(0, i as int)),
                config.directory@ == Seq::<char>::empty(),
            decreases loads@.len() - i,
        {
            let ghost prefix = loads@.subrange(0, i as int);
            let ghost next = loads@.subrange(0, i + 1);
            assert(next.drop_last() =~= prefix);
            match config.merge_file_config(&loads[i]) {
                Ok(()) => {},
                Err(e) => {
                    proof { lemma_failure_in_prefix(loads@, i as int + 1); }
                    return Err(e);
                },
            }
            i = i + 1;
        }
        assert(loads@.subrange(0, loads@.len() as int) =~= loads@);
        config.apply_command_line(verbose_flag);
        Ok(config)
    }
}

/// A failure in a prefix of `loads` is the first failure of all of `loads`.
proof fn lemma_failure_in_prefix(loads: Seq<FileLoad>, n: int)
    requires
        0 <= n <= loads.len(),
        first_failure(loads.subrange(0, n)) is Some,
    ensures
        first_failure(loads) == first_failure(loads.subrange(0, n)),
    decreases loads.len() - n,
{
    if n < loads.len() {
        let next = loads.subrange(0, n + 1);
        assert(next.drop_last() =~= loads.subrange(0, n));
        lemma_failure_in_prefix(loads, n + 1);
    } else {
        assert(loads.subrange(0, n) =~= loads);
    }
}

/// Whether the program runs verbosely under `config`.
pub fn foo(config: &Configuration) -> (v: bool)
    ensures
        v == config.verbose,
{
    config.verbose
}

} // verus!
