//! Opening and closing the network transport's port in the host firewall.
use vstd::prelude::*;
use vstd::string::StringExecFns;
use crate::utils::text::{decimal, decimal_string};

verus! {

/// Manages the firewall rule for the network transport's port.
pub struct FirewallManager;

/// A host firewall front end.
#[derive(Debug, Clone, Copy, PartialEq, Eq, Structural)]
pub enum Firewall {
    Ufw,
    Firewalld,
}

/// A program to run and its arguments.
#[derive(Debug)]
pub struct FirewallCommand {
    pub program: String,
    pub args: Vec<String>,
}

/// The characters of each string of a sequence.
pub open spec fn strings_of(v: Seq<String>) -> Seq<Seq<char>> {
    Seq::new(v.len(), |i: int| v[i]@)
}

impl FirewallCommand {
    /// The program and arguments as character sequences.
    pub open spec fn view(self) -> (Seq<char>, Seq<Seq<char>>) {
        (self.program@, strings_of(self.args@))
    }
}

/// The rule text for a TCP port: `<port>/tcp`.
pub open spec fn port_rule_spec(port: u16) -> Seq<char> {
    decimal(port as nat) + "/tcp"@
}

/// The next step of opening a port: probe a firewall, add the rule to it, or stop.
#[derive(Debug, Clone, Copy, PartialEq, Eq, Structural)]
pub enum OpenPortStep {
    Probe(Firewall),
    Allow(Firewall),
    Finished,
}

/// After `step`, with its command's success: ufw is tried first and firewalld second; the
/// first that answers its probe gets the rule; after adding a rule, or when neither answers,
/// opening is finished.
pub open spec fn next_open_step_spec(step: OpenPortStep, succeeded: bool) -> OpenPortStep {
    match step {
        OpenPortStep::Probe(Firewall::Ufw) => if succeeded {
            OpenPortStep::Allow(Firewall::Ufw)
        } else {
            OpenPortStep::Probe(Firewall::Firewalld)
        },
        OpenPortStep::Probe(Firewall::Firewalld) => if succeeded {
            OpenPortStep::Allow(Firewall::Firewalld)
        } else {
            OpenPortStep::Finished
        },
        _ => OpenPortStep::Finished,
    }
}

fn command(program: &str, a: &str, b: Option<String>) -> (r: FirewallCommand)
    ensures
        r.view() == (program@, match b {
            Some(x) => seq![a@, x@],
            None => seq![a@],
        }),
{
    let mut args: Vec<String> = Vec::new();
    args.push(String::from_str(a));
    match b {
        Some(x) => {
            args.push(x);
            assert(strings_of(args@) =~= seq![a@, args@[1]@]);
        },
        None => {
            assert(strings_of(args@) =~= seq![a@]);
        },
    }
    FirewallCommand { program: String::from_str(program), args }
}

impl FirewallManager {
    /// The rule text for a TCP port.
    pub fn port_rule(port: u16) -> (r: String)
        ensures
            r@ == port_rule_spec(port),
    {
        decimal_string(port as u64).concat("/tcp")
    }

    /// The command that tells whether a firewall is active.
    pub fn probe_command(firewall: Firewall) -> (r: FirewallCommand)
        ensures
            r.view() == match firewall {
                Firewall::Ufw => ("ufw"@, seq!["status"@]),
                Firewall::Firewalld => ("firewall-cmd"@, seq!["--state"@]),
            },
    {
        match firewall {
            Firewall::Ufw => command("ufw", "status", None),
            Firewall::Firewalld => command("firewall-cmd", "--state", None),
        }
    }

    /// The command that opens a TCP port in a firewall.
    pub fn allow_command(firewall: Firewall, port: u16) -> (r: FirewallCommand)
        ensures
            r.view() == match firewall {
                Firewall::Ufw => ("ufw"@, seq!["allow"@, port_rule_spec(port)]),
                Firewall::Firewalld => ("firewall-cmd"@, seq!["--add-port"@, port_rule_spec(port)]),
            },
    {
        match firewall {
            Firewall::Ufw => command("ufw", "allow", Some(Self::port_rule(port))),
            Firewall::Firewalld => command("firewall-cmd", "--add-port", Some(Self::port_rule(port))),
        }
    }

    /// The commands that close a TCP port: in ufw, then in firewalld (each tried regardless).
    pub fn close_commands(port: u16) -> (r: Vec<FirewallCommand>)
        ensures
            r@.len() == 2,
            r@[0].view() == ("ufw"@, seq!["delete"@, "allow"@, port_rule_spec(port)]),
            r@[1].view() == ("firewall-cmd"@, seq!["--remove-port"@, port_rule_spec(port)]),
    {
        let mut ufw_args: Vec<String> = Vec::new();
        ufw_args.push(String::from_str("delete"));
        ufw_args.push(String::from_str("allow"));
        ufw_args.push(Self::port_rule(port));
        assert(strings_of(ufw_args@) =~= seq!["delete"@, "allow"@, port_rule_spec(port)]);
        let ufw = FirewallCommand { program: String::from_str("ufw"), args: ufw_args };
        let firewalld = command("firewall-cmd", "--remove-port", Some(Self::port_rule(port)));
        let mut out: Vec<FirewallCommand> = Vec::new();
        out.push(ufw);
        out.push(firewalld);
        out
    }

    /// The first step of opening a port: probing ufw.
    pub fn first_open_step() -> (r: OpenPortStep)
        ensures
            r == OpenPortStep::Probe(Firewall::Ufw),
    {
        OpenPortStep::Probe(Firewall::Ufw)
    }

    /// The step after `step`, given whether its command succeeded.
    pub fn next_open_step(step: OpenPortStep, succeeded: bool) -> (r: OpenPortStep)
        ensures
            r == next_open_step_spec(step, succeeded),
    {
        match step {
            OpenPortStep::Probe(Firewall::Ufw) => if succeeded {
                OpenPortStep::Allow(Firewall::Ufw)
            } else {
                OpenPortStep::Probe(Firewall::Firewalld)
            },
            OpenPortStep::Probe(Firewall::Firewalld) => if succeeded {
                OpenPortStep::Allow(Firewall::Firewalld)
            } else {
                OpenPortStep::Finished
            },
            _ => OpenPortStep::Finished,
        }
    }
}

/// Opening a port takes at most three commands: whatever the firewalls answer, the third
/// step after the first is `Finished`.
pub proof fn law_open_port_finishes(a: bool, b: bool, c: bool)
    ensures
        next_open_step_spec(
            next_open_step_spec(next_open_step_spec(OpenPortStep::Probe(Firewall::Ufw), a), b),
            c,
        ) == OpenPortStep::Finished,
{
}

} // verus!
