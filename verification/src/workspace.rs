//! The scoped coverage workspace: a shard directory named uniquely by the
//! invoking process's identity, and the merged-profile path, both under one
//! base directory.  The library lays the paths out and decides what release
//! removes; the driver around it performs the directory creation, the shard
//! lookup and the removals on disk.

use vstd::prelude::*;
use crate::strutil::{dec_of, dec_str, path_join};

verus! {

/// The workspace of one pipeline run.
#[derive(Debug)]
pub struct Profenv {
    profraw_dir: String,
    profdata: String,
}

/// What releasing a workspace asks the driver to remove: the shard
/// directory recursively, and the merged-profile file.  Removal failures
/// are logged as warnings and never escalated.
#[derive(Debug)]
pub struct ReleasePlan {
    /// The shard directory to remove recursively, if any.
    pub remove_dir: Option<String>,
    /// The merged-profile file to delete, if any.
    pub remove_file: Option<String>,
}

impl Profenv {
    /// The shard directory's path.
    pub closed spec fn profraw_dir_view(&self) -> Seq<char> {
        self.profraw_dir@
    }

    /// The merged profile's path.
    pub closed spec fn profdata_view(&self) -> Seq<char> {
        self.profdata@
    }

    /// The shard directory laid out under `basedir` for the process
    /// identity `pid`.
    pub open spec fn dir_of(basedir: Seq<char>, pid: nat) -> Seq<char> {
        basedir + "/"@ + "profraw-"@ + dec_of(pid)
    }

    /// The merged profile's path under `basedir`.
    pub open spec fn profdata_of(basedir: Seq<char>) -> Seq<char> {
        basedir + "/"@ + "default.profdata"@
    }

    /// The shard pattern the instrumented binaries write to: the shard
    /// directory plus the per-process wildcard token, substituted at write
    /// time by the instrumentation runtime, not by this system.
    pub open spec fn profraw_view(&self) -> Seq<char> {
        self.profraw_dir_view() + "/"@ + "%p.profraw"@
    }

    /// Lays the workspace out under `basedir`, the shard directory salted
    /// with the invoking process's identity `pid` so that concurrent
    /// separate invocations never collide.  The driver creates the
    /// directory on disk when it acquires the workspace.
    pub fn new(basedir: &str, pid: u64) -> (r: Profenv)
        ensures
            r.profraw_dir_view() == Self::dir_of(basedir@, pid as nat),
            r.profdata_view() == Self::profdata_of(basedir@),
    {
        let mut name = "profraw-".to_owned();
        name.append(dec_str(pid).as_str());
        let profraw_dir = path_join(basedir, name.as_str());
        let profdata = path_join(basedir, "default.profdata");
        proof {
            assert(profraw_dir@ =~= Self::dir_of(basedir@, pid as nat));
            assert(profdata@ =~= Self::profdata_of(basedir@));
        }
        Profenv { profraw_dir, profdata }
    }

    /// The shard directory's path.
    pub fn profraw_dir(&self) -> (r: &String)
        ensures
            r@ == self.profraw_dir_view(),
    {
        &self.profraw_dir
    }

    /// The merged profile's path.
    pub fn profdata(&self) -> (r: &String)
        ensures
            r@ == self.profdata_view(),
    {
        &self.profdata
    }

    /// The shard pattern bound as the profiling environment variable.
    pub fn profraw(&self) -> (r: String)
        ensures
            r@ == self.profraw_view(),
    {
        let r = path_join(self.profraw_dir.as_str(), "%p.profraw");
        proof {
            assert(r@ =~= self.profraw_view());
        }
        r
    }

    /// The lookup pattern for all shard files currently present: the shard
    /// directory plus a wildcard over the shard names.
    pub fn profraw_glob(&self) -> (r: String)
        ensures
            r@ == self.profraw_dir_view() + "/"@ + "*.profraw"@,
    {
        let r = path_join(self.profraw_dir.as_str(), "*.profraw");
        proof {
            assert(r@ =~= self.profraw_dir_view() + "/"@ + "*.profraw"@);
        }
        r
    }

    /// Releases the workspace.  Without retention, both the shard directory
    /// and the merged-profile file are to be removed; with retention the
    /// caller abandons cleanup and everything stays on disk.
    pub fn release(self, keep: bool) -> (r: ReleasePlan)
        ensures
            keep ==> r.remove_dir is None && r.remove_file is None,
            !keep ==> (r.remove_dir matches Some(d) && d@ == self.profraw_dir_view()),
            !keep ==> (r.remove_file matches Some(f) && f@ == self.profdata_view()),
    {
        if keep {
            ReleasePlan { remove_dir: None, remove_file: None }
        } else {
            ReleasePlan { remove_dir: Some(self.profraw_dir), remove_file: Some(self.profdata) }
        }
    }
}

} // verus!
