//! A command line in the making: the program and its arguments, the
//! directory to run it in, and the changes to its environment.

use vstd::prelude::*;

verus! {

/// A command as contracts see it.
pub struct CmdView {
    /// The program, then its arguments.
    pub args: Seq<Seq<char>>,
    /// The environment settings, in the order they were made.
    pub envs: Seq<(Seq<char>, Seq<char>)>,
    /// Whether the inherited environment is dropped.
    pub env_clear: bool,
    /// The directory to run in, if one was set.
    pub dir: Option<Seq<char>>,
}

/// One change to the environment of a program about to run.
pub enum EnvChange {
    /// The variable is taken out.
    Remove(String),
    /// The variable gets the value.
    Assign(String, String),
}

/// A change to the environment as contracts see it.
pub enum EnvChangeView {
    /// The variable is taken out.
    Remove(Seq<char>),
    /// The variable gets the value.
    Assign(Seq<char>, Seq<char>),
}

impl View for EnvChange {
    type V = EnvChangeView;

    open spec fn view(&self) -> EnvChangeView {
        match self {
            EnvChange::Remove(key) => EnvChangeView::Remove(key@),
            EnvChange::Assign(key, val) => EnvChangeView::Assign(key@, val@),
        }
    }
}

/// What a setting does to the environment: an empty value takes the variable
/// out, any other value is given to it.
pub open spec fn env_change(key: Seq<char>, val: Seq<char>) -> EnvChangeView {
    if val.len() == 0 {
        EnvChangeView::Remove(key)
    } else {
        EnvChangeView::Assign(key, val)
    }
}

/// All that is needed to start a program.
pub struct Launch {
    /// The program to start.
    pub program: String,
    /// Its arguments.
    pub args: Vec<String>,
    /// The directory to start it in, if not the current one.
    pub dir: Option<String>,
    /// Whether it starts from an empty environment.
    pub env_clear: bool,
    /// The changes to its environment, to be made in this order.
    pub env: Vec<EnvChange>,
}

/// A launch as contracts see it.
pub struct LaunchView {
    /// The program to start.
    pub program: Seq<char>,
    /// Its arguments.
    pub args: Seq<Seq<char>>,
    /// The directory to start it in, if not the current one.
    pub dir: Option<Seq<char>>,
    /// Whether it starts from an empty environment.
    pub env_clear: bool,
    /// The changes to its environment, to be made in this order.
    pub env: Seq<EnvChangeView>,
}

impl View for Launch {
    type V = LaunchView;

    open spec fn view(&self) -> LaunchView {
        LaunchView {
            program: self.program@,
            args: Seq::new(self.args@.len(), |i: int| self.args@[i]@),
            dir: match self.dir {
                Some(dir) => Some(dir@),
                None => None,
            },
            env_clear: self.env_clear,
            env: Seq::new(self.env@.len(), |i: int| self.env@[i]@),
        }
    }
}

impl CmdView {
    /// The launch that the command stands for. The first argument is the
    /// program, so there must be one.
    pub open spec fn launch(self) -> LaunchView
        recommends
            self.args.len() > 0,
    {
        LaunchView {
            program: self.args[0],
            args: self.args.skip(1),
            dir: self.dir,
            env_clear: self.env_clear,
            env: Seq::new(self.envs.len(), |i: int| env_change(self.envs[i].0, self.envs[i].1)),
        }
    }
}

/// The parts in a row, with `sep` between each two.
pub open spec fn joined(parts: Seq<Seq<char>>, sep: Seq<char>) -> Seq<char>
    decreases parts.len(),
{
    if parts.len() == 0 {
        Seq::empty()
    } else if parts.len() == 1 {
        parts[0]
    } else {
        joined(parts.drop_last(), sep) + sep + parts.last()
    }
}

/// A command that is being put together.
#[derive(Debug, Clone)]
pub struct Cmd {
    args: Vec<String>,
    envs: Vec<(String, String)>,
    env_clear: bool,
    dir: Option<String>,
}

impl View for Cmd {
    type V = CmdView;

    closed spec fn view(&self) -> CmdView {
        CmdView {
            args: Seq::new(self.args@.len(), |i: int| self.args@[i]@),
            envs: Seq::new(self.envs@.len(), |i: int| (self.envs@[i].0@, self.envs@[i].1@)),
            env_clear: self.env_clear,
            dir: match self.dir {
                Some(dir) => Some(dir@),
                None => None,
            },
        }
    }
}

impl Cmd {
    /// A command that runs the program `s` without arguments, in the current
    /// directory and environment.
    pub fn new(s: &str) -> (cmd: Self)
        ensures
            cmd@ == (CmdView {
                args: seq![s@],
                envs: Seq::empty(),
                env_clear: false,
                dir: None,
            }),
    {
        let mut args: Vec<String> = Vec::new();
        args.push(s.to_owned());
        let cmd = Self { args, envs: Vec::new(), env_clear: false, dir: None };
        assert(cmd@.args =~= seq![s@]);
        assert(cmd@.envs =~= Seq::empty());
        cmd
    }

    /// A command made of `args`: the program first, then its arguments.
    pub fn with_args(args: Vec<String>) -> (cmd: Self)
        ensures
            cmd@ == (CmdView {
                args: Seq::new(args@.len(), |i: int| args@[i]@),
                envs: Seq::empty(),
                env_clear: false,
                dir: None,
            }),
    {
        let cmd = Self { args, envs: Vec::new(), env_clear: false, dir: None };
        assert(cmd@.envs =~= Seq::empty());
        cmd
    }

    /// Adds one argument at the end.
    pub fn arg(&mut self, arg: &str)
        ensures
            final(self)@ == (CmdView { args: old(self)@.args.push(arg@), ..old(self)@ }),
    {
        self.args.push(arg.to_owned());
        assert(self@.args =~= old(self)@.args.push(arg@));
    }

    /// Adds arguments at the end, in their order.
    pub fn args(&mut self, args: Vec<String>)
        ensures
            final(self)@ == (CmdView {
                args: old(self)@.args + Seq::new(args@.len(), |i: int| args@[i]@),
                ..old(self)@
            }),
    {
        let mut more = args;
        self.args.append(&mut more);
        assert(self@.args =~= old(self)@.args + Seq::new(args@.len(), |i: int| args@[i]@));
    }

    /// Sets the directory to run in. A later call replaces an earlier one.
    pub fn dir(&mut self, s: &str)
        ensures
            final(self)@ == (CmdView { dir: Some(s@), ..old(self)@ }),
    {
        self.dir = Some(s.to_owned());
    }

    /// Adds a setting of the environment: `key` gets `val`, or is taken out
    /// if `val` is empty.
    pub fn env(&mut self, key: &str, val: &str)
        ensures
            final(self)@ == (CmdView { envs: old(self)@.envs.push((key@, val@)), ..old(self)@ }),
    {
        self.envs.push((key.to_owned(), val.to_owned()));
        assert(self@.envs =~= old(self)@.envs.push((key@, val@)));
    }

    /// Makes the program start from an empty environment.
    pub fn env_clear(&mut self)
        ensures
            final(self)@ == (CmdView { env_clear: true, ..old(self)@ }),
    {
        self.env_clear = true;
    }

    /// The directory to run in, if one was set.
    pub fn working_dir(&self) -> (dir: Option<String>)
        ensures
            match dir {
                Some(dir) => self@.dir == Some(dir@),
                None => self@.dir is None,
            },
    {
        match &self.dir {
            Some(dir) => Some(dir.clone()),
            None => None,
        }
    }

    /// Whether the command names a program at all.
    pub fn has_program(&self) -> (has: bool)
        ensures
            has == (self@.args.len() > 0),
    {
        self.args.len() > 0
    }

    /// Works out how to start the command: the first argument is the
    /// program, the others are handed to it, and each setting of the
    /// environment becomes one change.
    pub fn create_cmd(&self) -> (launch: Launch)
        requires
            self@.args.len() > 0,
        ensures
            launch@ == self@.launch(),
    {
        let program = self.args[0].clone();
        let mut args: Vec<String> = Vec::new();
        let mut i: usize = 1;
        while i < self.args.len()
            invariant
                1 <= i <= self.args@.len(),
                args@.len() == i - 1,
                forall|j: int| 0 <= j < args@.len() ==> args@[j]@ == self.args@[j + 1]@,
            decreases self.args@.len() - i,
        {
            args.push(self.args[i].clone());
            i = i + 1;
        }
        let mut env: Vec<EnvChange> = Vec::new();
        let mut k: usize = 0;
        while k < self.envs.len()
            invariant
                k <= self.envs@.len(),
                env@.len() == k,
                forall|j: int|
                    0 <= j < env@.len() ==> env@[j]@ == env_change(
                        self.envs@[j].0@,
                        self.envs@[j].1@,
                    ),
            decreases self.envs@.len() - k,
        {
            let key = self.envs[k].0.clone();
            if self.envs[k].1.as_str().is_empty() {
                env.push(EnvChange::Remove(key));
            } else {
                env.push(EnvChange::Assign(key, self.envs[k].1.clone()));
            }
            k = k + 1;
        }
        let dir = match &self.dir {
            Some(dir) => Some(dir.clone()),
            None => None,
        };
        let launch = Launch { program, args, dir, env_clear: self.env_clear, env };
        assert(launch@.args =~= self@.launch().args);
        assert(launch@.env =~= self@.launch().env);
        launch
    }

    /// The command as one line: the program and its arguments with a blank
    /// between each two.
    pub fn command_line(&self) -> (line: String)
        ensures
            line@ == joined(self@.args, seq![' ']),
    {
        let mut line = String::new();
        let mut i: usize = 0;
        proof {
            reveal_strlit(" ");
        }
        while i < self.args.len()
            invariant
                i <= self.args@.len(),
                line@ == joined(self@.args.take(i as int), seq![' ']),
                " "@ == seq![' '],
            decreases self.args@.len() - i,
        {
            let ghost before = self@.args.take(i as int);
            let ghost now = self@.args.take(i + 1);
            assert(now.drop_last() =~= before);
            assert(now.last() == self.args@[i as int]@);
            if i > 0 {
                line.append(" ");
            }
            line.append(self.args[i].as_str());
            i = i + 1;
        }
        assert(self@.args.take(i as int) =~= self@.args);
        line
    }
}

} // verus!
