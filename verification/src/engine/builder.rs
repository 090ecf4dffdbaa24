//! A builder that configures the PDP engine and tracks in its type whether
//! the required paths (Python binary, PDP directory) have been supplied.

use crate::engine::args::Arg;
use crate::engine::error::PDPError;
use crate::strmap::StrMap;
use core::marker::PhantomData;
use core::time::Duration;
use vstd::prelude::*;

verus! {

/// Marker: a required path may still be missing.
pub struct Missing;

/// Marker: both required paths are present.
pub struct Present;

/// The duration of a whole number of seconds, as `Duration::from_secs`
/// makes it.
pub uninterp spec fn duration_of_secs(secs: u64) -> Duration;

/// `Duration::from_secs` of std: the contract claims only that the result
/// is a function of the number of seconds, named `duration_of_secs`; the
/// call does not fail.
#[verifier::external_body]
fn duration_from_secs(secs: u64) -> (d: Duration)
    ensures
        d == duration_of_secs(secs),
{
    Duration::from_secs(secs)
}

/// Configuration of the PDP engine before it starts. Paths are kept as
/// their text.
pub struct PDPEngineBuilder<PathsSet> {
    pub python_path: Option<String>,
    pub pdp_dir: Option<String>,
    pub args: Vec<Arg>,
    pub env_vars: StrMap<String>,
    pub base_url: String,
    pub health_timeout: Duration,
    pub health_check_interval: Duration,
    pub _paths: PhantomData<PathsSet>,
}

/// The default base URL of the PDP server.
pub open spec fn default_base_url() -> Seq<char> {
    "http://localhost:7001/"@
}

impl<P> PDPEngineBuilder<P> {
    /// The builder is well formed: environment variable names are distinct.
    pub open spec fn wf(&self) -> bool {
        self.env_vars.wf()
    }

    /// Every field but the CLI arguments is as in `other`.
    pub open spec fn same_but_args<Q>(&self, other: PDPEngineBuilder<Q>) -> bool {
        &&& self.python_path == other.python_path
        &&& self.pdp_dir == other.pdp_dir
        &&& self.env_vars == other.env_vars
        &&& self.base_url@ == other.base_url@
        &&& self.health_timeout == other.health_timeout
        &&& self.health_check_interval == other.health_check_interval
    }

    /// Every field but the environment variables is as in `other`.
    pub open spec fn same_but_env<Q>(&self, other: PDPEngineBuilder<Q>) -> bool {
        &&& self.python_path == other.python_path
        &&& self.pdp_dir == other.pdp_dir
        &&& self.args@ == other.args@
        &&& self.base_url@ == other.base_url@
        &&& self.health_timeout == other.health_timeout
        &&& self.health_check_interval == other.health_check_interval
    }

    /// Every field but the ones that hold paths is as in `other`.
    pub open spec fn same_settings<Q>(&self, other: PDPEngineBuilder<Q>) -> bool {
        &&& self.args@ == other.args@
        &&& self.env_vars == other.env_vars
        &&& self.base_url@ == other.base_url@
        &&& self.health_timeout == other.health_timeout
        &&& self.health_check_interval == other.health_check_interval
    }
}

impl PDPEngineBuilder<Missing> {
    /// A builder with no paths set, no arguments or environment variables,
    /// the default base URL and ten seconds for both health durations.
    pub fn new() -> (b: Self)
        ensures
            b.wf(),
            b.python_path is None,
            b.pdp_dir is None,
            b.args@.len() == 0,
            b.env_vars@ == Map::<Seq<char>, String>::empty(),
            b.base_url@ == default_base_url(),
            b.health_timeout == duration_of_secs(10),
            b.health_check_interval == duration_of_secs(10),
    {
        PDPEngineBuilder {
            python_path: None,
            pdp_dir: None,
            args: Vec::new(),
            env_vars: StrMap::new(),
            base_url: "http://localhost:7001/".to_owned(),
            health_timeout: duration_from_secs(10),
            health_check_interval: duration_from_secs(10),
            _paths: PhantomData,
        }
    }
}

impl Default for PDPEngineBuilder<Missing> {
    /// The same builder as `new`.
    fn default() -> (b: Self)
        ensures
            b.wf(),
            b.python_path is None,
            b.pdp_dir is None,
            b.args@.len() == 0,
            b.env_vars@ == Map::<Seq<char>, String>::empty(),
            b.base_url@ == default_base_url(),
            b.health_timeout == duration_of_secs(10),
            b.health_check_interval == duration_of_secs(10),
    {
        PDPEngineBuilder::new()
    }
}

/// The text of why `python3` was not found on the search path.
#[verifier::external_body]
fn which_python3() -> (r: Result<String, String>) {
    match which::which("python3") {
        Ok(p) => Ok(p.to_string_lossy().into_owned()),
        Err(e) => Err(e.to_string()),
    }
}

/// The `python3` on the search path, as `which` finds it; the reason it is
/// not found becomes a missing-binary error.
pub fn locate_python() -> (r: Result<String, PDPError>)
    ensures
        r matches Err(e) ==> e is PythonBinaryNotFound,
{
    match which_python3() {
        Ok(p) => Ok(p),
        Err(e) => Err(PDPError::PythonBinaryNotFound(e)),
    }
}

impl<P> PDPEngineBuilder<P> {
    /// Adds a CLI argument.
    pub fn add_arg(self, arg: Arg) -> (b: Self)
        ensures
            b.args@ == self.args@.push(arg),
            b.same_but_args(self),
    {
        let mut b = self;
        b.args.push(arg);
        b
    }

    /// Adds a custom CLI argument.
    pub fn add_arg_custom(self, arg: String) -> (b: Self)
        ensures
            b.args@ == self.args@.push(Arg::Custom(arg)),
            b.same_but_args(self),
    {
        let mut b = self;
        b.args.push(Arg::Custom(arg));
        b
    }

    /// Replaces the CLI arguments.
    pub fn with_args(self, args: Vec<Arg>) -> (b: Self)
        ensures
            b.args@ == args@,
            b.same_but_args(self),
    {
        let mut b = self;
        b.args = args;
        b
    }

    /// Replaces the environment variables of the PDP process.
    pub fn with_env_vars(self, env_vars: StrMap<String>) -> (b: Self)
        ensures
            b.env_vars == env_vars,
            b.same_but_env(self),
    {
        let mut b = self;
        b.env_vars = env_vars;
        b
    }

    /// Adds one environment variable, replacing any of the same name.
    pub fn add_env(self, name: String, value: String) -> (b: Self)
        requires
            self.wf(),
        ensures
            b.wf(),
            b.env_vars@ == self.env_vars@.insert(name@, value),
            b.same_but_env(self),
    {
        let mut b = self;
        b.env_vars.insert(name, value);
        b
    }

    /// Overrides the base URL of the PDP server.
    pub fn with_base_url(self, base_url: String) -> (b: Self)
        ensures
            b.base_url@ == base_url@,
            b.python_path == self.python_path,
            b.pdp_dir == self.pdp_dir,
            b.args@ == self.args@,
            b.env_vars == self.env_vars,
            b.health_timeout == self.health_timeout,
            b.health_check_interval == self.health_check_interval,
    {
        let mut b = self;
        b.base_url = base_url;
        b
    }

    /// Sets how long to wait for the PDP to become healthy, at start and
    /// when it turns unhealthy before a restart is tried.
    pub fn with_health_timeout(self, timeout: Duration) -> (b: Self)
        ensures
            b.health_timeout == timeout,
            b.python_path == self.python_path,
            b.pdp_dir == self.pdp_dir,
            b.args@ == self.args@,
            b.env_vars == self.env_vars,
            b.base_url@ == self.base_url@,
            b.health_check_interval == self.health_check_interval,
    {
        let mut b = self;
        b.health_timeout = timeout;
        b
    }

    /// Sets the interval of health checks while the PDP is healthy; zero
    /// turns health monitoring off.
    pub fn with_health_check_interval(self, interval: Duration) -> (b: Self)
        ensures
            b.health_check_interval == interval,
            b.python_path == self.python_path,
            b.pdp_dir == self.pdp_dir,
            b.args@ == self.args@,
            b.env_vars == self.env_vars,
            b.base_url@ == self.base_url@,
            b.health_timeout == self.health_timeout,
    {
        let mut b = self;
        b.health_check_interval = interval;
        b
    }
}

impl PDPEngineBuilder<Missing> {
    /// Sets the Python binary path. `is_executable_file` tells whether the
    /// path names a regular file with an execute permission bit; the path is
    /// refused otherwise.
    pub fn with_python_path(self, path: String, is_executable_file: bool) -> (r: Result<
        PDPEngineBuilder<Missing>,
        PDPError,
    >)
        ensures
            is_executable_file ==> (r matches Ok(b) && b.python_path == Some(path) && b.pdp_dir
                == self.pdp_dir && b.same_settings(self)),
            !is_executable_file ==> (r matches Err(PDPError::PythonBinaryNotFound(m)) && m@
                == "Provided Python path is not an executable file"@),
    {
        if !is_executable_file {
            return Err(
                PDPError::PythonBinaryNotFound(
                    "Provided Python path is not an executable file".to_owned(),
                ),
            );
        }
        Ok(
            PDPEngineBuilder {
                python_path: Some(path),
                pdp_dir: self.pdp_dir,
                args: self.args,
                env_vars: self.env_vars,
                base_url: self.base_url,
                health_timeout: self.health_timeout,
                health_check_interval: self.health_check_interval,
                _paths: PhantomData,
            },
        )
    }

    /// Sets the PDP directory. `is_dir` tells whether the path names an
    /// existing directory; the path is refused otherwise.
    pub fn with_pdp_dir(self, dir: String, is_dir: bool) -> (r: Result<
        PDPEngineBuilder<Missing>,
        PDPError,
    >)
        ensures
            is_dir ==> (r matches Ok(b) && b.pdp_dir == Some(dir) && b.python_path
                == self.python_path && b.same_settings(self)),
            !is_dir ==> (r matches Err(PDPError::PDPDirNotFound(m)) && m@
                == "Provided PDP directory path does not exist"@),
    {
        if !is_dir {
            return Err(
                PDPError::PDPDirNotFound("Provided PDP directory path does not exist".to_owned()),
            );
        }
        Ok(
            PDPEngineBuilder {
                python_path: self.python_path,
                pdp_dir: Some(dir),
                args: self.args,
                env_vars: self.env_vars,
                base_url: self.base_url,
                health_timeout: self.health_timeout,
                health_check_interval: self.health_check_interval,
                _paths: PhantomData,
            },
        )
    }

    /// Sets the Python binary path to the `python3` found on the search path
    /// (`located`, or the text of why none was found). `is_executable_file`
    /// tells whether the found path names an executable file.
    pub fn with_located_python(
        self,
        located: Result<String, PDPError>,
        is_executable_file: bool,
    ) -> (r: Result<PDPEngineBuilder<Missing>, PDPError>)
        ensures
            located matches Err(e) ==> r == Err::<PDPEngineBuilder<Missing>, PDPError>(e),
            located matches Ok(path) ==> if is_executable_file {
                r matches Ok(b) && b.python_path == Some(path) && b.pdp_dir == self.pdp_dir
                    && b.same_settings(self)
            } else {
                r matches Err(PDPError::PythonBinaryNotFound(m)) && m@
                    == "Provided Python path is not an executable file"@
            },
    {
        match located {
            Err(e) => Err(e),
            Ok(path) => self.with_python_path(path, is_executable_file),
        }
    }

    /// Sets the PDP directory to the working directory (`cwd`, or the text
    /// of why it is unknown). `is_dir` tells whether it names a directory.
    pub fn with_cwd_as_pdp_dir(self, cwd: Result<String, String>, is_dir: bool) -> (r: Result<
        PDPEngineBuilder<Missing>,
        PDPError,
    >)
        ensures
            cwd matches Err(e) ==> (r matches Err(PDPError::PDPDirNotFound(m)) && m == e),
            cwd matches Ok(dir) ==> if is_dir {
                r matches Ok(b) && b.pdp_dir == Some(dir) && b.python_path == self.python_path
                    && b.same_settings(self)
            } else {
                r matches Err(PDPError::PDPDirNotFound(m)) && m@
                    == "Provided PDP directory path does not exist"@
            },
    {
        match cwd {
            Err(e) => Err(PDPError::PDPDirNotFound(e)),
            Ok(dir) => self.with_pdp_dir(dir, is_dir),
        }
    }

    /// Turns the builder into one whose paths are known to be present, or
    /// names the first missing path.
    pub fn into_present(self) -> (r: Result<PDPEngineBuilder<Present>, PDPError>)
        ensures
            self.python_path is None ==> (r matches Err(PDPError::PythonBinaryNotFound(m)) && m@
                == "Python binary path not provided"@),
            self.python_path is Some && self.pdp_dir is None ==> (r matches Err(
                PDPError::PDPDirNotFound(m),
            ) && m@ == "PDP directory path not provided"@),
            self.python_path is Some && self.pdp_dir is Some ==> (r matches Ok(b) && b.python_path
                == self.python_path && b.pdp_dir == self.pdp_dir && b.same_settings(self)),
    {
        if self.python_path.is_none() {
            return Err(PDPError::PythonBinaryNotFound("Python binary path not provided".to_owned()));
        }
        if self.pdp_dir.is_none() {
            return Err(PDPError::PDPDirNotFound("PDP directory path not provided".to_owned()));
        }
        Ok(
            PDPEngineBuilder {
                python_path: self.python_path,
                pdp_dir: self.pdp_dir,
                args: self.args,
                env_vars: self.env_vars,
                base_url: self.base_url,
                health_timeout: self.health_timeout,
                health_check_interval: self.health_check_interval,
                _paths: PhantomData,
            },
        )
    }
}

} // verus!
