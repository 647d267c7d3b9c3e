//! Command generation: turning one user's cache rules into the argument
//! list of a `make-token` invocation of the administration binary, and
//! planning whether that invocation is printed or executed.

use vstd::prelude::*;

use crate::Args;
use crate::config::CacheRule;
use crate::config::CacheRuleView;
use crate::config::Configuration;
use crate::config::spec_lookup;
use crate::permissions::CachePermissions;
use crate::permissions::spec_flag;

verus! {

/// A process invocation that has been generated but not yet run: the
/// program name and its ordered argument list.
#[derive(Debug, Clone, PartialEq, Eq)]
pub struct CommandSpec {
    pub program: String,
    pub args: Vec<String>,
}

/// Mathematical view of a [`CommandSpec`].
#[verifier::ext_equal]
pub struct CommandSpecView {
    pub program: Seq<char>,
    pub args: Seq<Seq<char>>,
}

impl View for CommandSpec {
    type V = CommandSpecView;

    open spec fn view(&self) -> CommandSpecView {
        (CommandSpecView { program: self.program@, args: self.args.deep_view() })
    }
}

/// Why a command could not be generated.
#[derive(Debug, Clone, PartialEq, Eq)]
pub enum CommandError {
    /// The requested user is not mentioned in the configuration.
    UnknownUser(String),
}

/// The flag/pattern argument pairs of one rule: for each permission in
/// order, the permission's flag followed by the rule's pattern.
pub open spec fn spec_permission_args(ps: Seq<CachePermissions>, pattern: Seq<char>) -> Seq<
    Seq<char>,
>
    decreases ps.len(),
{
    if ps.len() == 0 {
        Seq::empty()
    } else {
        seq![spec_flag(ps[0]), pattern] + spec_permission_args(
            ps.subrange(1, ps.len() as int),
            pattern,
        )
    }
}

/// The argument pairs of a rule list, rule by rule in order.
pub open spec fn spec_rules_args(rs: Seq<CacheRuleView>) -> Seq<Seq<char>>
    decreases rs.len(),
{
    if rs.len() == 0 {
        Seq::empty()
    } else {
        spec_permission_args(rs[0].permissions, rs[0].pattern) + spec_rules_args(
            rs.subrange(1, rs.len() as int),
        )
    }
}

/// The full argument list of one user's `make-token` invocation.
pub open spec fn spec_command_args(
    name: Seq<char>,
    validity: Seq<char>,
    rules: Seq<CacheRuleView>,
) -> Seq<Seq<char>> {
    seq!["make-token"@, "--sub"@, name, "--validity"@, validity] + spec_rules_args(rules)
}

/// Generate the token-issuance command for the user that `args` requests.
/// The command is a pure function of the configuration, the user name, the
/// program name and the validity string; a user absent from the
/// configuration is the one error, naming that user.
pub fn generate_command(config: &Configuration, args: &Args) -> (r: Result<
    (String, CommandSpec),
    CommandError,
>)
    ensures
        match spec_lookup(config@, args.name@) {
            Some(rules) => r matches Ok(p) && p.0@ == args.name@ && p.1@.program == args.program@
                && p.1@.args == spec_command_args(args.name@, args.validity@, rules),
            None => r matches Err(CommandError::UnknownUser(u)) && u@ == args.name@,
        },
{
    let rules = match config.find_user(args.name.as_str()) {
        Some(rules) => rules,
        None => {
            return Err(CommandError::UnknownUser(args.name.clone()));
        },
    };
    let ghost rules_view: Seq<CacheRuleView> = spec_lookup(config@, args.name@)->Some_0;
    let ghost goal: Seq<Seq<char>> = spec_command_args(args.name@, args.validity@, rules_view);
    let mut argv: Vec<String> = Vec::new();
    argv.push("make-token".to_owned());
    argv.push("--sub".to_owned());
    argv.push(args.name.clone());
    argv.push("--validity".to_owned());
    argv.push(args.validity.clone());
    let mut i: usize = 0;
    proof {
        assert(rules_view == rules@.map_values(|c: CacheRule| c@));
        assert(rules_view.subrange(0, rules_view.len() as int) =~= rules_view);
        assert(argv.deep_view() =~= seq![
            "make-token"@,
            "--sub"@,
            args.name@,
            "--validity"@,
            args.validity@,
        ]);
    }
    while i < rules.len()
        invariant
            0 <= i <= rules.len(),
            rules_view == rules@.map_values(|c: CacheRule| c@),
            rules_view.len() == rules@.len(),
            goal =~= argv.deep_view() + spec_rules_args(
                rules_view.subrange(i as int, rules_view.len() as int),
            ),
        decreases rules.len() - i,
    {
        let ghost suffix = rules_view.subrange(i as int, rules_view.len() as int);
        let ghost suffix_rest = rules_view.subrange(i as int + 1, rules_view.len() as int);
        proof {
            assert(suffix[0] == rules_view[i as int]);
            assert(rules_view[i as int] == rules@[i as int]@);
            assert(suffix.subrange(1, suffix.len() as int) =~= suffix_rest);
        }
        let rule = &rules[i];
        let ghost perms: Seq<CachePermissions> = rule.permissions@;
        let mut j: usize = 0;
        proof {
            assert(perms.subrange(0, perms.len() as int) =~= perms);
        }
        while j < rule.permissions.len()
            invariant
                0 <= j <= rule.permissions.len(),
                perms == rule.permissions@,
                goal =~= argv.deep_view() + spec_permission_args(
                    perms.subrange(j as int, perms.len() as int),
                    rule.pattern@,
                ) + spec_rules_args(suffix_rest),
            decreases rule.permissions.len() - j,
        {
            let ghost perm_suffix = perms.subrange(j as int, perms.len() as int);
            proof {
                assert(perm_suffix[0] == perms[j as int]);
                assert(perm_suffix.subrange(1, perm_suffix.len() as int) =~= perms.subrange(
                    j as int + 1,
                    perms.len() as int,
                ));
            }
            let ghost argv_before = argv.deep_view();
            let flag = rule.permissions[j].to_atticadm_flag();
            argv.push(flag.to_owned());
            argv.push(rule.pattern.clone());
            proof {
                assert(argv.deep_view() =~= argv_before + seq![
                    spec_flag(perms[j as int]),
                    rule.pattern@,
                ]);
            }
            j = j + 1;
        }
        proof {
            assert(perms.subrange(i as int, perms.len() as int) =~= perms.subrange(
                i as int,
                perms.len() as int,
            ));
            assert(spec_permission_args(
                perms.subrange(j as int, perms.len() as int),
                rule.pattern@,
            ) =~= Seq::<Seq<char>>::empty());
        }
        i = i + 1;
    }
    proof {
        assert(spec_rules_args(rules_view.subrange(i as int, rules_view.len() as int)) =~= Seq::<
            Seq<char>,
        >::empty());
        assert(argv.deep_view() =~= goal);
    }
    Ok((
        args.name.clone(),
        CommandSpec { program: args.program.clone(), args: argv },
    ))
}

/// The rendered command line: the program name, then each argument,
/// separated by single spaces.
pub open spec fn spec_render_args(args: Seq<Seq<char>>) -> Seq<char>
    decreases args.len(),
{
    if args.len() == 0 {
        Seq::empty()
    } else {
        " "@ + args[0] + spec_render_args(args.subrange(1, args.len() as int))
    }
}

/// The rendered command line of a command.
pub open spec fn spec_render_command(c: CommandSpecView) -> Seq<char> {
    c.program + spec_render_args(c.args)
}

impl CommandSpec {
    /// Render this command as the line that would be executed.
    pub fn render(&self) -> (r: String)
        ensures
            r@ == spec_render_command(self@),
    {
        let mut line: String = self.program.clone();
        let ghost all: Seq<Seq<char>> = self.args.deep_view();
        let mut i: usize = 0;
        proof {
            assert(all.subrange(0, all.len() as int) =~= all);
        }
        while i < self.args.len()
            invariant
                0 <= i <= self.args.len(),
                all == self.args.deep_view(),
                all.len() == self.args@.len(),
                spec_render_command(self@) =~= line@ + spec_render_args(
                    all.subrange(i as int, all.len() as int),
                ),
            decreases self.args.len() - i,
        {
            let ghost suffix = all.subrange(i as int, all.len() as int);
            proof {
                assert(suffix[0] == all[i as int]);
                assert(self.args@[i as int]@ == all[i as int]);
                assert(suffix.subrange(1, suffix.len() as int) =~= all.subrange(
                    i as int + 1,
                    all.len() as int,
                ));
            }
            line.append(" ");
            line.append(self.args[i].as_str());
            i = i + 1;
        }
        proof {
            assert(spec_render_args(all.subrange(i as int, all.len() as int)) =~= Seq::<
                char,
            >::empty());
            assert(line@ + Seq::<char>::empty() =~= line@);
        }
        line
    }
}

/// What the executor is to do with a generated command.
#[derive(Debug, Clone, PartialEq, Eq)]
pub enum InvocationPlan {
    /// Only show the rendered command line; nothing is to be run.
    DryRun(String),
    /// Run the command as a child process.
    Execute(CommandSpec),
}

/// Decide what is done with a generated command. In dry-run mode the plan
/// is always to show the rendered command line, never to execute; outside
/// dry-run mode it is always to execute the command unchanged.
pub fn plan_invocation(dry_run: bool, cmd: CommandSpec) -> (p: InvocationPlan)
    ensures
        dry_run ==> (p matches InvocationPlan::DryRun(s) && s@ == spec_render_command(cmd@)),
        !dry_run ==> (p matches InvocationPlan::Execute(c) && c == cmd),
{
    if dry_run {
        InvocationPlan::DryRun(cmd.render())
    } else {
        InvocationPlan::Execute(cmd)
    }
}

} // verus!
