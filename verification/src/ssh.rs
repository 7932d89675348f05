//! SSH connection multiplexing: the control master's socket path, address
//! and exact argument lists. Spawning the master and tracking live
//! masters per host stay outside the library.

use vstd::prelude::*;

verus! {

use crate::strutil::strs_view;

pub enum SshError {
    /// The control path directory could not be created; the message.
    CreateControlDir(String),
    /// The SSH master could not be spawned; the message.
    SpawnMaster(String),
    /// The SSH master exited with a bad code.
    MasterFailed(Option<i32>),
    /// The SSH master could not be closed; the message.
    CloseMaster(String),
}

/// One SSH control master: a persistent connection to a host, addressed
/// through a control socket under the runtime directory.
pub struct SshControlMaster {
    control_path: String,
    hostname: String,
    ssh_user: Option<String>,
    ssh_opts: Vec<String>,
}

impl SshControlMaster {
    pub closed spec fn control_path_spec(&self) -> Seq<char> {
        self.control_path@
    }

    pub closed spec fn hostname_spec(&self) -> Seq<char> {
        self.hostname@
    }

    pub closed spec fn ssh_user_spec(&self) -> Option<Seq<char>> {
        match self.ssh_user {
            Some(u) => Some(u@),
            None => None,
        }
    }

    pub closed spec fn ssh_opts_spec(&self) -> Seq<Seq<char>> {
        strs_view(self.ssh_opts@)
    }

    /// The `user@host` (or bare host) the master connects to.
    pub open spec fn ssh_addr_spec(&self) -> Seq<char> {
        match self.ssh_user_spec() {
            Some(u) => u + "@"@ + self.hostname_spec(),
            None => self.hostname_spec(),
        }
    }

    /// Sets a master up whose control socket lives under `temp_path`,
    /// named after the host.
    pub fn new(hostname: &str, ssh_user: Option<&str>, ssh_opts: &Vec<String>, temp_path: &str)
        -> (r: SshControlMaster)
        ensures
            r.control_path_spec() == temp_path@ + "/deploy-rs-ssh-"@ + hostname@,
            r.hostname_spec() == hostname@,
            (match ssh_user {
                Some(u) => r.ssh_user_spec() == Some(u@),
                None => r.ssh_user_spec() is None,
            }),
            r.ssh_opts_spec() == strs_view(ssh_opts@),
    {
        proof {
            reveal_strlit("/deploy-rs-ssh-");
        }
        let control_path = String::from_str(temp_path).concat("/deploy-rs-ssh-").concat(hostname);
        proof {
            assert(control_path@ =~= temp_path@ + "/deploy-rs-ssh-"@ + hostname@);
        }
        SshControlMaster {
            control_path,
            hostname: String::from_str(hostname),
            ssh_user: match ssh_user {
                Some(u) => Some(String::from_str(u)),
                None => None,
            },
            ssh_opts: crate::data::clone_strings(ssh_opts),
        }
    }

    /// The address the carriers connect to.
    pub fn ssh_addr(&self) -> (r: String)
        ensures
            r@ == self.ssh_addr_spec(),
    {
        proof {
            reveal_strlit("@");
        }
        match &self.ssh_user {
            Some(user) => {
                let r = user.clone().concat("@").concat(self.hostname.as_str());
                proof {
                    assert(r@ =~= self.ssh_addr_spec());
                }
                r
            },
            None => self.hostname.clone(),
        }
    }

    /// The control socket path.
    pub fn control_path(&self) -> (r: &String)
        ensures
            r@ == self.control_path_spec(),
    {
        &self.control_path
    }

    /// The options that route a carrier through this master.
    pub fn control_opts(&self) -> (r: Vec<String>)
        ensures
            strs_view(r@) =~= seq!["-o"@, "ControlPath="@ + self.control_path_spec()],
    {
        proof {
            reveal_strlit("-o");
            reveal_strlit("ControlPath=");
        }
        let mut r: Vec<String> = Vec::new();
        r.push(String::from_str("-o"));
        let cp = String::from_str("ControlPath=").concat(self.control_path.as_str());
        r.push(cp);
        proof {
            assert(strs_view(r@) =~= seq!["-o"@, "ControlPath="@ + self.control_path_spec()]);
        }
        r
    }

    /// The argument list that starts the master: persistent, in the
    /// background, with no remote command.
    pub fn start_args(&self) -> (r: Vec<String>)
        ensures
            strs_view(r@) =~= seq![
                "-o"@,
                "ControlMaster=yes"@,
                "-o"@,
                "ControlPath="@ + self.control_path_spec(),
                "-o"@,
                "ControlPersist=yes"@,
                "-N"@,
                "-f"@,
            ] + self.ssh_opts_spec() + seq![self.ssh_addr_spec()],
    {
        proof {
            reveal_strlit("-o");
            reveal_strlit("ControlMaster=yes");
            reveal_strlit("ControlPath=");
            reveal_strlit("ControlPersist=yes");
            reveal_strlit("-N");
            reveal_strlit("-f");
        }
        let mut r: Vec<String> = Vec::new();
        r.push(String::from_str("-o"));
        r.push(String::from_str("ControlMaster=yes"));
        r.push(String::from_str("-o"));
        r.push(String::from_str("ControlPath=").concat(self.control_path.as_str()));
        r.push(String::from_str("-o"));
        r.push(String::from_str("ControlPersist=yes"));
        r.push(String::from_str("-N"));
        r.push(String::from_str("-f"));
        let mut opts = crate::data::clone_strings(&self.ssh_opts);
        r.append(&mut opts);
        r.push(self.ssh_addr());
        proof {
            assert(strs_view(r@) =~= seq![
                "-o"@,
                "ControlMaster=yes"@,
                "-o"@,
                "ControlPath="@ + self.control_path_spec(),
                "-o"@,
                "ControlPersist=yes"@,
                "-N"@,
                "-f"@,
            ] + self.ssh_opts_spec() + seq![self.ssh_addr_spec()]);
        }
        r
    }

    /// The argument list that asks the master to exit.
    pub fn stop_args(&self) -> (r: Vec<String>)
        ensures
            strs_view(r@) =~= seq![
                "-o"@,
                "ControlPath="@ + self.control_path_spec(),
                "-O"@,
                "exit"@,
                self.ssh_addr_spec(),
            ],
    {
        proof {
            reveal_strlit("-o");
            reveal_strlit("ControlPath=");
            reveal_strlit("-O");
            reveal_strlit("exit");
        }
        let mut r: Vec<String> = Vec::new();
        r.push(String::from_str("-o"));
        r.push(String::from_str("ControlPath=").concat(self.control_path.as_str()));
        r.push(String::from_str("-O"));
        r.push(String::from_str("exit"));
        r.push(self.ssh_addr());
        proof {
            assert(strs_view(r@) =~= seq![
                "-o"@,
                "ControlPath="@ + self.control_path_spec(),
                "-O"@,
                "exit"@,
                self.ssh_addr_spec(),
            ]);
        }
        r
    }
}

/// The directory the control sockets live in: the runtime directory, a
/// temp directory, the user's cache, or the system temp directory, first
/// available wins.
pub fn runtime_dir_from(
    xdg_runtime_dir: Option<String>,
    tmpdir: Option<String>,
    home: Option<String>,
) -> (r: String)
    ensures
        r@ == (match xdg_runtime_dir {
            Some(x) => x@ + "/deploy-rs"@,
            None => match tmpdir {
                Some(t) => t@ + "/deploy-rs"@,
                None => match home {
                    Some(h) => h@ + "/.cache/deploy-rs"@,
                    None => "/tmp/deploy-rs"@,
                },
            },
        }),
{
    proof {
        reveal_strlit("/deploy-rs");
        reveal_strlit("/.cache/deploy-rs");
        reveal_strlit("/tmp/deploy-rs");
    }
    match xdg_runtime_dir {
        Some(x) => x.concat("/deploy-rs"),
        None => match tmpdir {
            Some(t) => t.concat("/deploy-rs"),
            None => match home {
                Some(h) => h.concat("/.cache/deploy-rs"),
                None => String::from_str("/tmp/deploy-rs"),
            },
        },
    }
}

} // verus!
