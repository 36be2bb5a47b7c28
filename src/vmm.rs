//! How the jailed VMM is started and where its files live.
use vstd::prelude::*;
use crate::text::{decimal, decimal_string};

verus! {

/// Jailed uids and gids start here; a machine's offset is added.
pub const JAIL_UID_BASE: u32 = 10000;

/// The jailed uid (and gid) for a uid offset.
pub fn jail_uid(uid_offset: u16) -> (r: u32)
    ensures
        r == JAIL_UID_BASE + uid_offset,
{
    JAIL_UID_BASE + uid_offset as u32
}

/// Arguments of the jailer: the instance id, the VMM binary, the jailed
/// uid and gid, then the VMM's own arguments: its log level and, when a
/// metadata document was written into the jail, that document.
pub fn jailer_args(id: &str, exec_file: &str, uid_offset: u16, with_metadata: bool) -> (r: Vec<
    String,
>)
    ensures
        r.deep_view() == seq![
            "--id"@,
            id@,
            "--exec-file"@,
            exec_file@,
            "--uid"@,
            decimal((JAIL_UID_BASE + uid_offset) as nat),
            "--gid"@,
            decimal((JAIL_UID_BASE + uid_offset) as nat),
            "--"@,
            "--level"@,
            "error"@,
        ] + if with_metadata {
            seq!["--metadata"@, "metadata.json"@]
        } else {
            Seq::empty()
        },
{
    let uid = decimal_string(jail_uid(uid_offset));
    let mut v: Vec<String> = Vec::new();
    v.push(String::from_str("--id"));
    v.push(id.to_owned());
    v.push(String::from_str("--exec-file"));
    v.push(exec_file.to_owned());
    v.push(String::from_str("--uid"));
    v.push(uid.clone());
    v.push(String::from_str("--gid"));
    v.push(uid);
    v.push(String::from_str("--"));
    v.push(String::from_str("--level"));
    v.push(String::from_str("error"));
    if with_metadata {
        v.push(String::from_str("--metadata"));
        v.push(String::from_str("metadata.json"));
    }
    assert(v.deep_view() =~= seq![
        "--id"@,
        id@,
        "--exec-file"@,
        exec_file@,
        "--uid"@,
        decimal((JAIL_UID_BASE + uid_offset) as nat),
        "--gid"@,
        decimal((JAIL_UID_BASE + uid_offset) as nat),
        "--"@,
        "--level"@,
        "error"@,
    ] + if with_metadata {
        seq!["--metadata"@, "metadata.json"@]
    } else {
        Seq::empty()
    });
    v
}

/// `/srv/jailer/<vmm binary name>/<id>/root`
pub fn jail_root(vmm_name: &str, id: &str) -> (r: String)
    ensures
        r@ == "/srv/jailer/"@ + vmm_name@ + "/"@ + id@ + "/root"@,
{
    let mut s = String::from_str("/srv/jailer/");
    s.append(vmm_name);
    s.append("/");
    s.append(id);
    s.append("/root");
    s
}

/// The VMM's control socket inside the jail.
pub fn control_socket_path(root: &str) -> (r: String)
    ensures
        r@ == root@ + "/run/firecracker.socket"@,
{
    let mut s = String::from_str(root);
    s.append("/run/firecracker.socket");
    s
}

/// The host end of the guest channel on `port`, inside the jail.
pub fn vsock_listener_path(root: &str, port: u32) -> (r: String)
    ensures
        r@ == root@ + "/run/v.sock_"@ + decimal(port as nat),
{
    let mut s = String::from_str(root);
    s.append("/run/v.sock_");
    let p = decimal_string(port);
    s.append(p.as_str());
    s
}

} // verus!

verus! {

/// Relies on uuid's `Uuid::new_v4` and its hyphenated `Display`: a random
/// version 4 id written as 36 characters.
#[verifier::external_body]
fn new_instance_id() -> (r: String)
    ensures
        r@.len() == 36,
{
    uuid::Uuid::new_v4().to_string()
}

/// What starting a jailed VMM needs: a fresh id, the jail's root, the
/// control socket in it, and the jailer's arguments.
#[derive(Clone, Debug)]
pub struct JailPlan {
    pub id: String,
    pub root: String,
    pub control_socket: String,
    pub jailer_args: Vec<String>,
}

impl JailPlan {
    /// A plan for the VMM binary `exec_file`, whose file name is `vmm_name`.
    pub fn new(vmm_name: &str, exec_file: &str, uid_offset: u16, with_metadata: bool) -> (r: JailPlan)
        ensures
            r.id@.len() == 36,
            r.root@ == "/srv/jailer/"@ + vmm_name@ + "/"@ + r.id@ + "/root"@,
            r.control_socket@ == r.root@ + "/run/firecracker.socket"@,
            r.jailer_args.deep_view() == seq![
                "--id"@,
                r.id@,
                "--exec-file"@,
                exec_file@,
                "--uid"@,
                decimal((JAIL_UID_BASE + uid_offset) as nat),
                "--gid"@,
                decimal((JAIL_UID_BASE + uid_offset) as nat),
                "--"@,
                "--level"@,
                "error"@,
            ] + if with_metadata {
                seq!["--metadata"@, "metadata.json"@]
            } else {
                Seq::empty()
            },
    {
        let id = new_instance_id();
        let root = jail_root(vmm_name, id.as_str());
        let control_socket = control_socket_path(root.as_str());
        let args = jailer_args(id.as_str(), exec_file, uid_offset, with_metadata);
        JailPlan { id, root, control_socket, jailer_args: args }
    }
}

} // verus!
