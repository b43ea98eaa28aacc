//! Which group messages start a deployment or a rollback.

use vstd::prelude::*;
use crate::deploy::config::DeployConfig;
use crate::onebot::{account_text, is_admin, is_group, listed, mention_text, mentions_any, plain_text, Segment};
use crate::text::{chars_of, equal, trim, trim_class, CharClass};

verus! {

/// What an administrator asks of the deployment plugin.
#[derive(Debug, Clone, Copy, PartialEq, Eq, Structural)]
pub enum DeployCommand {
    /// `部署`: roll out the newest image.
    Deploy,
    /// `回滚`: go back to the previous version.
    Rollback,
}

/// The command of a message: in the deploy group, from an administrator, mentioning the
/// bot, with `部署` or `回滚` as its whole trimmed text.
pub open spec fn deploy_command_of(
    cfg: DeployConfig,
    group_id: Option<i64>,
    user_id: i64,
    segs: Seq<Segment>,
    self_id: i64,
) -> Option<DeployCommand> {
    if group_id is None || account_text(group_id.unwrap()) != cfg.group_id@ || !listed(
        cfg.admin_qq@,
        user_id,
    ) || !mentions_any(segs, self_id) {
        None
    } else if trim(plain_text(segs), CharClass::Whitespace) == "部署"@ {
        Some(DeployCommand::Deploy)
    } else if trim(plain_text(segs), CharClass::Whitespace) == "回滚"@ {
        Some(DeployCommand::Rollback)
    } else {
        None
    }
}

/// The deployment command that a group message gives, if any.
pub fn read_deploy_command(
    cfg: &DeployConfig,
    group_id: Option<i64>,
    user_id: i64,
    segs: &Vec<Segment>,
    self_id: i64,
) -> (r: Option<DeployCommand>)
    ensures
        r == deploy_command_of(*cfg, group_id, user_id, segs@, self_id),
{
    let g = match group_id {
        Some(g) => g,
        None => return None,
    };
    if !is_group(g, cfg.group_id.as_str()) || !is_admin(&cfg.admin_qq, user_id) {
        return None;
    }
    let text = match mention_text(segs, self_id) {
        Some(t) => t,
        None => return None,
    };
    let cmd = trim_class(&chars_of(text.as_str()), CharClass::Whitespace);
    if equal(&cmd, &chars_of("部署")) {
        Some(DeployCommand::Deploy)
    } else if equal(&cmd, &chars_of("回滚")) {
        Some(DeployCommand::Rollback)
    } else {
        None
    }
}

} // verus!
