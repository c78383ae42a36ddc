//! The command line of a `docker run` that executes a process inside a container.

use crate::text::texts;
use vstd::prelude::*;
use vstd::string::*;

verus! {

/// What a container is started with. `Docker::run_args` turns it into the arguments
/// of `docker`.
pub struct Docker {
    image: String,
    args: Vec<String>,
    env_vars: Vec<String>,
    mounts: Vec<String>,
    cmd_args: Vec<String>,
    network: String,
    wd: String,
}

/// Mathematical content of a `Docker`.
pub ghost struct DockerView {
    pub image: Seq<char>,
    pub args: Seq<Seq<char>>,
    pub env_vars: Seq<Seq<char>>,
    pub mounts: Seq<Seq<char>>,
    pub cmd_args: Seq<Seq<char>>,
    pub network: Seq<char>,
    pub wd: Seq<char>,
}

impl View for Docker {
    type V = DockerView;

    closed spec fn view(&self) -> DockerView {
        DockerView {
            image: self.image@,
            args: texts(self.args@),
            env_vars: texts(self.env_vars@),
            mounts: texts(self.mounts@),
            cmd_args: texts(self.cmd_args@),
            network: self.network@,
            wd: self.wd@,
        }
    }
}

/// The characters of each string of a slice.
pub open spec fn slice_texts(list: Seq<&str>) -> Seq<Seq<char>> {
    list.map_values(|s: &str| s@)
}

/// One `-e` and the variable for each variable of the list, in its order.
pub open spec fn env_flags(vars: Seq<Seq<char>>) -> Seq<Seq<char>>
    decreases vars.len(),
{
    if vars.len() == 0 {
        Seq::empty()
    } else {
        env_flags(vars.drop_last()).push("-e"@).push(vars.last())
    }
}

/// A host path and a container path as the value of `-v`, read-only where asked.
pub open spec fn mount_value(host: Seq<char>, inside: Seq<char>, read_only: bool) -> Seq<char> {
    if read_only {
        host + seq![':'] + inside + ":ro"@
    } else {
        host + seq![':'] + inside
    }
}

/// One `-v` and the mount for each pair of the list, in its order.
pub open spec fn mount_flags(pairs: Seq<(&str, &str)>, read_only: bool) -> Seq<Seq<char>>
    decreases pairs.len(),
{
    if pairs.len() == 0 {
        Seq::empty()
    } else {
        mount_flags(pairs.drop_last(), read_only).push("-v"@).push(
            mount_value(pairs.last().0@, pairs.last().1@, read_only),
        )
    }
}

impl DockerView {
    /// The arguments of `docker` that run `cmd` in the container: the options of the
    /// run, the mounts, the environment, the network, the image, then the command
    /// with the arguments set before and those given now.
    pub open spec fn run_args(self, cmd: Seq<char>, cmd_args: Seq<Seq<char>>) -> Seq<Seq<char>> {
        seq!["run"@, "--gpus"@, "all"@] + self.args + self.mounts + self.env_vars + seq![
            "--network"@,
            self.network,
            self.image,
            cmd,
        ] + self.cmd_args + cmd_args
    }
}

fn append_texts(out: &mut Vec<String>, list: &Vec<String>)
    ensures
        texts(final(out)@) == texts(old(out)@) + texts(list@),
{
    let mut i: usize = 0;
    assert(texts(out@) =~= texts(old(out)@) + texts(list@.take(0)));
    while i < list.len()
        invariant
            i <= list.len(),
            texts(out@) == texts(old(out)@) + texts(list@.take(i as int)),
        decreases list.len() - i,
    {
        let ghost before = out@;
        out.push(list[i].clone());
        assert(texts(out@) =~= texts(before).push(list@[i as int]@));
        assert(list@.take(i + 1) =~= list@.take(i as int).push(list@[i as int]));
        i += 1;
        assert(texts(out@) =~= texts(old(out)@) + texts(list@.take(i as int)));
    }
    assert(list@.take(i as int) =~= list@);
}

fn append_slice(out: &mut Vec<String>, list: &[&str])
    ensures
        texts(final(out)@) == texts(old(out)@) + slice_texts(list@),
{
    let mut i: usize = 0;
    assert(texts(out@) =~= texts(old(out)@) + slice_texts(list@.take(0)));
    while i < list.len()
        invariant
            i <= list.len(),
            texts(out@) == texts(old(out)@) + slice_texts(list@.take(i as int)),
        decreases list.len() - i,
    {
        let ghost before = out@;
        out.push(String::from_str(list[i]));
        assert(texts(out@) =~= texts(before).push(list@[i as int]@));
        assert(list@.take(i + 1) =~= list@.take(i as int).push(list@[i as int]));
        i += 1;
        assert(texts(out@) =~= texts(old(out)@) + slice_texts(list@.take(i as int)));
    }
    assert(list@.take(i as int) =~= list@);
}

fn append_env(out: &mut Vec<String>, vars: &[&str])
    ensures
        texts(final(out)@) == texts(old(out)@) + env_flags(slice_texts(vars@)),
{
    let mut i: usize = 0;
    assert(texts(out@) =~= texts(old(out)@) + env_flags(slice_texts(vars@.take(0))));
    while i < vars.len()
        invariant
            i <= vars.len(),
            texts(out@) == texts(old(out)@) + env_flags(slice_texts(vars@.take(i as int))),
        decreases vars.len() - i,
    {
        let ghost before = out@;
        out.push(String::from_str("-e"));
        out.push(String::from_str(vars[i]));
        proof {
            let grown = slice_texts(vars@.take(i + 1));
            assert(grown.drop_last() =~= slice_texts(vars@.take(i as int)));
            assert(grown.last() == vars@[i as int]@);
            assert(texts(out@) =~= texts(before).push("-e"@).push(vars@[i as int]@));
        }
        i += 1;
        assert(texts(out@) =~= texts(old(out)@) + env_flags(slice_texts(vars@.take(i as int))));
    }
    assert(vars@.take(i as int) =~= vars@);
}

fn append_mounts(out: &mut Vec<String>, pairs: &[(&str, &str)], read_only: bool)
    ensures
        texts(final(out)@) == texts(old(out)@) + mount_flags(pairs@, read_only),
{
    let mut i: usize = 0;
    assert(texts(out@) =~= texts(old(out)@) + mount_flags(pairs@.take(0), read_only));
    while i < pairs.len()
        invariant
            i <= pairs.len(),
            texts(out@) == texts(old(out)@) + mount_flags(pairs@.take(i as int), read_only),
        decreases pairs.len() - i,
    {
        proof {
            reveal_strlit(":");
            assert(pairs@.take(i + 1).drop_last() =~= pairs@.take(i as int));
        }
        let mut value = String::from_str(pairs[i].0);
        value.append(":");
        value.append(pairs[i].1);
        if read_only {
            value.append(":ro");
        }
        assert(value@ =~= mount_value(pairs@[i as int].0@, pairs@[i as int].1@, read_only));
        let ghost before = out@;
        out.push(String::from_str("-v"));
        out.push(value);
        assert(texts(out@) =~= texts(before).push("-v"@).push(value@));
        assert(pairs@.take(i + 1).last() == pairs@[i as int]);
        i += 1;
        assert(texts(out@) =~= texts(old(out)@) + mount_flags(pairs@.take(i as int), read_only));
    }
    assert(pairs@.take(i as int) =~= pairs@);
}

impl Docker {
    /// A container of the given image, with nothing else set.
    pub fn new(image: &str) -> (docker: Docker)
        ensures
            docker@ == (DockerView {
                image: image@,
                args: Seq::empty(),
                env_vars: Seq::empty(),
                mounts: Seq::empty(),
                cmd_args: Seq::empty(),
                network: Seq::empty(),
                wd: Seq::empty(),
            }),
    {
        let docker = Docker {
            image: String::from_str(image),
            args: Vec::new(),
            env_vars: Vec::new(),
            mounts: Vec::new(),
            cmd_args: Vec::new(),
            network: String::new(),
            wd: String::new(),
        };
        assert(docker@.args =~= Seq::empty());
        assert(docker@.env_vars =~= Seq::empty());
        assert(docker@.mounts =~= Seq::empty());
        assert(docker@.cmd_args =~= Seq::empty());
        docker
    }

    /// Adds options of `docker run` itself.
    pub fn args(&mut self, args: &[&str]) -> (this: &mut Self)
        ensures
            *final(self) == *final(this),
            this@ == (DockerView { args: old(self)@.args + slice_texts(args@), ..old(self)@ }),
    {
        append_slice(&mut self.args, args);
        self
    }

    /// Adds environment variables, each written as `NAME=value`.
    pub fn env_vars(&mut self, vars: &[&str]) -> (this: &mut Self)
        ensures
            *final(self) == *final(this),
            this@ == (DockerView {
                env_vars: old(self)@.env_vars + env_flags(slice_texts(vars@)),
                ..old(self)@
            }),
    {
        append_env(&mut self.env_vars, vars);
        self
    }

    /// Adds writable mounts, each a path on the host and a path in the container.
    pub fn mounts(&mut self, mounts: &[(&str, &str)]) -> (this: &mut Self)
        ensures
            *final(self) == *final(this),
            this@ == (DockerView {
                mounts: old(self)@.mounts + mount_flags(mounts@, false),
                ..old(self)@
            }),
    {
        append_mounts(&mut self.mounts, mounts, false);
        self
    }

    /// Adds read-only mounts, each a path on the host and a path in the container.
    pub fn mounts_ro(&mut self, mounts: &[(&str, &str)]) -> (this: &mut Self)
        ensures
            *final(self) == *final(this),
            this@ == (DockerView {
                mounts: old(self)@.mounts + mount_flags(mounts@, true),
                ..old(self)@
            }),
    {
        append_mounts(&mut self.mounts, mounts, true);
        self
    }

    /// Adds arguments that every command run in the container gets first.
    pub fn cmd_args(&mut self, args: &[&str]) -> (this: &mut Self)
        ensures
            *final(self) == *final(this),
            this@ == (DockerView {
                cmd_args: old(self)@.cmd_args + slice_texts(args@),
                ..old(self)@
            }),
    {
        append_slice(&mut self.cmd_args, args);
        self
    }

    /// Sets the network that the container joins.
    pub fn network(&mut self, net: &str) -> (this: &mut Self)
        ensures
            *final(self) == *final(this),
            this@ == (DockerView { network: net@, ..old(self)@ }),
    {
        self.network = String::from_str(net);
        self
    }

    /// Sets the working directory. It is kept with the container's settings and is
    /// no part of the arguments of the run.
    pub fn working_dir(&mut self, wd: &str) -> (this: &mut Self)
        ensures
            *final(self) == *final(this),
            this@ == (DockerView { wd: wd@, ..old(self)@ }),
    {
        self.wd = String::from_str(wd);
        self
    }

    /// The arguments with which `docker` runs `cmd` in the container.
    pub fn run_args(&self, cmd: &str, cmd_args: &[&str]) -> (args: Vec<String>)
        ensures
            texts(args@) == self@.run_args(cmd@, slice_texts(cmd_args@)),
    {
        let mut args: Vec<String> = Vec::new();
        args.push(String::from_str("run"));
        args.push(String::from_str("--gpus"));
        args.push(String::from_str("all"));
        assert(texts(args@) =~= seq!["run"@, "--gpus"@, "all"@]);
        append_texts(&mut args, &self.args);
        append_texts(&mut args, &self.mounts);
        append_texts(&mut args, &self.env_vars);
        let ghost head = args@;
        args.push(String::from_str("--network"));
        args.push(self.network.clone());
        args.push(self.image.clone());
        args.push(String::from_str(cmd));
        assert(texts(args@) =~= texts(head) + seq!["--network"@, self@.network, self@.image, cmd@]);
        append_texts(&mut args, &self.cmd_args);
        append_slice(&mut args, cmd_args);
        args
    }
}

} // verus!
