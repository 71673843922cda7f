use vstd::prelude::*;

use crate::error::ModManagerError;
use crate::models::Mod;

verus! {

/// The external mount invocation a deployment strategy builds: a program
/// name and its ordered argument list. Spawning the process is the caller's
/// business; building the invocation never mutates any mod or profile.
#[derive(Debug, Clone)]
pub struct DeployCommand {
    pub program: String,
    pub args: Vec<String>,
}

/// The character sequences of a list of strings, in order.
pub open spec fn views_of(ss: Seq<String>) -> Seq<Seq<char>> {
    ss.map_values(|s: String| s@)
}

/// The install paths of a list of mods, in order.
pub open spec fn mod_paths(ms: Seq<Mod>) -> Seq<Seq<char>> {
    ms.map_values(|m: Mod| m.install_path@)
}

/// The colon-separated join of the given paths, in order.
pub open spec fn join_paths_spec(paths: Seq<Seq<char>>) -> Seq<char>
    decreases paths.len(),
{
    if paths.len() == 0 {
        Seq::empty()
    } else if paths.len() == 1 {
        paths[0]
    } else {
        join_paths_spec(paths.drop_last()) + seq![':'] + paths.last()
    }
}

/// A deployment strategy: it projects an ordered, already-filtered mod list
/// into one external union-filesystem mount invocation. Earlier mods take
/// filesystem precedence in the mounted view.
pub trait GameDriver {
    /// The program this strategy invokes.
    spec fn deploy_program(&self) -> Seq<char>;

    /// The argument list this strategy hands to the program for the given
    /// ordered source paths.
    spec fn deploy_args(&self, paths: Seq<Seq<char>>) -> Seq<Seq<char>>;

    /// Build the mount invocation for the ordered mod list.
    fn deploy(&self, mods: &Vec<Mod>) -> (r: DeployCommand)
        ensures
            r.program@ == self.deploy_program(),
            views_of(r.args@) =~= self.deploy_args(mod_paths(mods@)),
    ;
}

/// The one concrete strategy: a union mount with copy-on-write options over
/// the mod install directories, earlier directories taking precedence.
#[derive(Debug, Clone)]
pub struct GenericGameDriver {
    pub game_install_path: String,
}

impl GenericGameDriver {
    pub fn new(game_install_path: String) -> (r: GenericGameDriver)
        ensures
            r.game_install_path == game_install_path,
    {
        GenericGameDriver { game_install_path }
    }
}

/// The colon-separated join of the install paths of `mods`, in order.
fn join_mod_paths(mods: &Vec<Mod>) -> (r: String)
    ensures
        r@ == join_paths_spec(mod_paths(mods@)),
{
    let ghost ps = mod_paths(mods@);
    let mut s = String::new();
    let mut i: usize = 0;
    while i < mods.len()
        invariant
            i <= mods@.len(),
            ps == mod_paths(mods@),
            s@ =~= join_paths_spec(ps.take(i as int)),
        decreases mods@.len() - i,
    {
        if i > 0 {
            proof {
                reveal_strlit(":");
            }
            s.append(":");
        }
        s.append(mods[i].install_path.as_str());
        proof {
            assert(ps.take(i + 1).drop_last() =~= ps.take(i as int));
            assert(ps.take(i + 1).last() == ps[i as int]);
            if i == 0 {
                assert(s@ =~= join_paths_spec(ps.take(i + 1)));
            } else {
                assert(":"@ =~= seq![':']) by {
                    reveal_strlit(":");
                }
                assert(s@ =~= join_paths_spec(ps.take(i + 1)));
            }
        }
        i = i + 1;
    }
    proof {
        assert(ps.take(mods@.len() as int) =~= ps);
    }
    s
}

impl GameDriver for GenericGameDriver {
    open spec fn deploy_program(&self) -> Seq<char> {
        "mergerfs"@
    }

    open spec fn deploy_args(&self, paths: Seq<Seq<char>>) -> Seq<Seq<char>> {
        seq![
            "-o"@,
            "defaults,use_ino,category.create=ff,category.action=epff"@,
            join_paths_spec(paths),
        ]
    }

    fn deploy(&self, mods: &Vec<Mod>) -> (r: DeployCommand) {
        let mut args: Vec<String> = Vec::new();
        args.push("-o".to_owned());
        args.push("defaults,use_ino,category.create=ff,category.action=epff".to_owned());
        let input_paths = join_mod_paths(mods);
        args.push(input_paths);
        let r = DeployCommand { program: "mergerfs".to_owned(), args };
        proof {
            assert(views_of(r.args@) =~= self.deploy_args(mod_paths(mods@)));
        }
        r
    }
}

/// The closed set of deployment strategies the system supports; new backends
/// extend this enumeration.
#[derive(Debug, Clone)]
pub enum GameDriverKind {
    Generic(GenericGameDriver),
}

impl GameDriverKind {
    /// Game detection is an explicit non-goal: the generic strategy applies
    /// to any game, so there is nothing to detect and the state is left
    /// unchanged.
    pub fn detect_game(&mut self) -> (r: Result<(), ModManagerError>)
        ensures
            *final(self) == *old(self),
            r is Ok,
    {
        Ok(())
    }
}

impl GameDriver for GameDriverKind {
    open spec fn deploy_program(&self) -> Seq<char> {
        match self {
            GameDriverKind::Generic(o) => o.deploy_program(),
        }
    }

    open spec fn deploy_args(&self, paths: Seq<Seq<char>>) -> Seq<Seq<char>> {
        match self {
            GameDriverKind::Generic(o) => o.deploy_args(paths),
        }
    }

    fn deploy(&self, mods: &Vec<Mod>) -> (r: DeployCommand) {
        match self {
            GameDriverKind::Generic(o) => o.deploy(mods),
        }
    }
}

} // verus!
