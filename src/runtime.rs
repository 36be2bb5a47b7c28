//! The runtime spec that starts a container: its process arguments and
//! environment from the image configuration and the caller's overrides,
//! and the fixed capability, namespace and id-mapping policy.
use vstd::prelude::*;
use crate::text::copy_strings;

verus! {

/// What an image configuration says of the process to run.
#[derive(Clone, Debug)]
pub struct ImageConfig {
    pub entrypoint: Option<Vec<String>>,
    pub cmd: Option<Vec<String>>,
    pub env: Option<Vec<String>>,
}

/// The caller's changes to the image's process. `additional_env` lists
/// variables by name, in the order they are added.
#[derive(Clone, Debug)]
pub struct RuntimeOverrides {
    pub additional_args: Option<Vec<String>>,
    pub additional_env: Option<Vec<(String, String)>>,
    pub terminal: bool,
}

impl RuntimeOverrides {
    /// No override: the image's own process, without a terminal.
    pub fn none() -> (r: RuntimeOverrides)
        ensures
            r.additional_args is None,
            r.additional_env is None,
            !r.terminal,
    {
        RuntimeOverrides { additional_args: None, additional_env: None, terminal: false }
    }
}

/// Linux capabilities that the container may hold.
#[derive(Clone, Copy, Debug, PartialEq, Eq, Structural)]
pub enum Capability {
    Chown,
    DacOverride,
    Fowner,
    Fsetid,
    Kill,
    Mknod,
    AuditWrite,
    NetBindService,
    NetRaw,
    Setfcap,
    Setgid,
    Setuid,
    SysChroot,
}

/// Namespaces the container gets of its own.
#[derive(Clone, Copy, Debug, PartialEq, Eq, Structural)]
pub enum NamespaceKind {
    Mount,
    Pid,
    Ipc,
    Uts,
    Cgroup,
}

/// One user or group id range mapped into the container.
#[derive(Clone, Copy, Debug, PartialEq, Eq, Structural)]
pub struct IdMapping {
    pub container_id: u32,
    pub host_id: u32,
    pub size: u32,
}

/// The runtime spec of a container: its process and isolation policy.
#[derive(Clone, Debug)]
pub struct RuntimeSpec {
    pub args: Vec<String>,
    pub env: Vec<String>,
    pub terminal: bool,
    /// The same set is ambient, bounding, effective, inheritable and permitted.
    pub capabilities: Vec<Capability>,
    pub namespaces: Vec<NamespaceKind>,
    pub root_path: String,
    pub root_readonly: bool,
    pub hostname: String,
    /// Used for both user and group ids.
    pub id_mapping: IdMapping,
}

pub open spec fn opt_strings(o: Option<Vec<String>>) -> Option<Seq<Seq<char>>> {
    match o {
        Some(v) => Some(v.deep_view()),
        None => None,
    }
}

/// Entrypoint, then the override arguments, else the image command, else a shell.
pub open spec fn process_args_spec(
    entrypoint: Option<Seq<Seq<char>>>,
    cmd: Option<Seq<Seq<char>>>,
    additional: Option<Seq<Seq<char>>>,
) -> Seq<Seq<char>> {
    let head = match entrypoint {
        Some(e) => e,
        None => Seq::empty(),
    };
    let tail = match additional {
        Some(a) => a,
        None => match cmd {
            Some(c) => c,
            None => seq!["/bin/sh"@],
        },
    };
    head + tail
}

pub open spec fn default_path() -> Seq<char> {
    "PATH=/usr/local/sbin:/usr/local/bin:/usr/sbin:/usr/bin:/sbin:/bin"@
}

pub open spec fn env_entries(vars: Seq<(String, String)>) -> Seq<Seq<char>> {
    vars.map_values(|kv: (String, String)| kv.0@ + "="@ + kv.1@)
}

/// The image's variables (a default PATH when it has none), then the
/// overrides as `key=value`, then `TERM=xterm` with a terminal.
pub open spec fn process_env_spec(
    image_env: Option<Seq<Seq<char>>>,
    additional: Option<Seq<(String, String)>>,
    terminal: bool,
) -> Seq<Seq<char>> {
    let base = match image_env {
        Some(e) => e,
        None => seq![default_path()],
    };
    let extra = match additional {
        Some(a) => env_entries(a),
        None => Seq::empty(),
    };
    let term = if terminal {
        seq!["TERM=xterm"@]
    } else {
        Seq::empty()
    };
    base + extra + term
}

pub open spec fn default_capabilities() -> Seq<Capability> {
    seq![
        Capability::Chown,
        Capability::DacOverride,
        Capability::Fowner,
        Capability::Fsetid,
        Capability::Kill,
        Capability::Mknod,
        Capability::AuditWrite,
        Capability::NetBindService,
        Capability::NetRaw,
        Capability::Setfcap,
        Capability::Setgid,
        Capability::Setuid,
        Capability::SysChroot,
    ]
}

pub open spec fn default_namespaces() -> Seq<NamespaceKind> {
    seq![
        NamespaceKind::Mount,
        NamespaceKind::Pid,
        NamespaceKind::Ipc,
        NamespaceKind::Uts,
        NamespaceKind::Cgroup,
    ]
}

fn append_strings(out: &mut Vec<String>, v: &Vec<String>)
    ensures
        final(out).deep_view() == old(out).deep_view() + v.deep_view(),
{
    let ghost start = out.deep_view();
    let mut i: usize = 0;
    while i < v.len()
        invariant
            i <= v@.len(),
            out.deep_view() =~= start + v.deep_view().subrange(0, i as int),
        decreases v@.len() - i,
    {
        let ghost prev = out.deep_view();
        out.push(v[i].clone());
        assert(out.deep_view() =~= prev.push(v.deep_view()[i as int]));
        i = i + 1;
    }
    assert(v.deep_view().subrange(0, i as int) =~= v.deep_view());
}

/// The arguments of the container's process.
pub fn process_args(config: &ImageConfig, overrides: &RuntimeOverrides) -> (r: Vec<String>)
    ensures
        r.deep_view() == process_args_spec(
            opt_strings(config.entrypoint),
            opt_strings(config.cmd),
            opt_strings(overrides.additional_args),
        ),
{
    let mut args: Vec<String> = match &config.entrypoint {
        Some(e) => copy_strings(e),
        None => Vec::new(),
    };
    assert(args.deep_view() =~= match opt_strings(config.entrypoint) {
        Some(e) => e,
        None => Seq::<Seq<char>>::empty(),
    });
    match &overrides.additional_args {
        Some(a) => append_strings(&mut args, a),
        None => match &config.cmd {
            Some(c) => append_strings(&mut args, c),
            None => {
                let ghost prev = args.deep_view();
                args.push(String::from_str("/bin/sh"));
                assert(args.deep_view() =~= prev + seq!["/bin/sh"@]);
            },
        },
    }
    args
}

/// The environment of the container's process.
pub fn process_env(config: &ImageConfig, overrides: &RuntimeOverrides) -> (r: Vec<String>)
    ensures
        r.deep_view() == process_env_spec(
            opt_strings(config.env),
            match overrides.additional_env {
                Some(a) => Some(a@),
                None => None,
            },
            overrides.terminal,
        ),
{
    let mut env: Vec<String> = match &config.env {
        Some(e) => copy_strings(e),
        None => {
            let mut v: Vec<String> = Vec::new();
            v.push(String::from_str("PATH=/usr/local/sbin:/usr/local/bin:/usr/sbin:/usr/bin:/sbin:/bin"));
            assert(v.deep_view() =~= seq![default_path()]);
            v
        },
    };
    let ghost base = env.deep_view();
    if let Some(extra) = &overrides.additional_env {
        let mut i: usize = 0;
        while i < extra.len()
            invariant
                i <= extra@.len(),
                env.deep_view() =~= base + env_entries(extra@.subrange(0, i as int)),
            decreases extra@.len() - i,
        {
            let mut entry = extra[i].0.clone();
            entry.append("=");
            entry.append(extra[i].1.as_str());
            let ghost prev = env.deep_view();
            env.push(entry);
            assert(env.deep_view() =~= prev.push(entry@));
            i = i + 1;
            assert(env_entries(extra@.subrange(0, i as int)) =~= env_entries(
                extra@.subrange(0, i - 1),
            ).push(entry@));
        }
        assert(extra@.subrange(0, i as int) =~= extra@);
    } else {
        assert(env.deep_view() =~= base + Seq::<Seq<char>>::empty());
    }
    let ghost mid = env.deep_view();
    if overrides.terminal {
        env.push(String::from_str("TERM=xterm"));
        assert(env.deep_view() =~= mid + seq!["TERM=xterm"@]);
    } else {
        assert(env.deep_view() =~= mid + Seq::<Seq<char>>::empty());
    }
    env
}

pub fn capabilities() -> (r: Vec<Capability>)
    ensures
        r@ == default_capabilities(),
{
    let r = vec![
        Capability::Chown,
        Capability::DacOverride,
        Capability::Fowner,
        Capability::Fsetid,
        Capability::Kill,
        Capability::Mknod,
        Capability::AuditWrite,
        Capability::NetBindService,
        Capability::NetRaw,
        Capability::Setfcap,
        Capability::Setgid,
        Capability::Setuid,
        Capability::SysChroot,
    ];
    assert(r@ =~= default_capabilities());
    r
}

pub fn namespaces() -> (r: Vec<NamespaceKind>)
    ensures
        r@ == default_namespaces(),
{
    let r = vec![
        NamespaceKind::Mount,
        NamespaceKind::Pid,
        NamespaceKind::Ipc,
        NamespaceKind::Uts,
        NamespaceKind::Cgroup,
    ];
    assert(r@ =~= default_namespaces());
    r
}

/// The runtime spec for an image configuration and the caller's overrides.
/// An image without a process configuration gets no spec of its own: the
/// runtime's default stands.
pub fn create_runtime_spec(config: Option<&ImageConfig>, overrides: &RuntimeOverrides) -> (r: Option<
    RuntimeSpec,
>)
    ensures
        config is None ==> r is None,
        config matches Some(c) ==> r matches Some(s) && {
            &&& s.args.deep_view() == process_args_spec(
                opt_strings(c.entrypoint),
                opt_strings(c.cmd),
                opt_strings(overrides.additional_args),
            )
            &&& s.env.deep_view() == process_env_spec(
                opt_strings(c.env),
                match overrides.additional_env {
                    Some(a) => Some(a@),
                    None => None,
                },
                overrides.terminal,
            )
            &&& s.terminal == overrides.terminal
            &&& s.capabilities@ == default_capabilities()
            &&& s.namespaces@ == default_namespaces()
            &&& s.root_path@ == "rootfs"@
            &&& !s.root_readonly
            &&& s.hostname@ == "node"@
            &&& s.id_mapping == IdMapping { container_id: 0, host_id: 0, size: 65536 }
        },
{
    match config {
        None => None,
        Some(c) => Some(
            RuntimeSpec {
                args: process_args(c, overrides),
                env: process_env(c, overrides),
                terminal: overrides.terminal,
                capabilities: capabilities(),
                namespaces: namespaces(),
                root_path: String::from_str("rootfs"),
                root_readonly: false,
                hostname: String::from_str("node"),
                id_mapping: IdMapping { container_id: 0, host_id: 0, size: 65536 },
            },
        ),
    }
}

} // verus!
