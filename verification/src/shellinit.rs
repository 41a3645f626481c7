//! Shell integration: the scripts `init` prints for the user's shell
//! to evaluate, so that exit actions chosen in the UI run in the
//! calling shell.

use vstd::prelude::*;

use crate::strutil::str_eq;

verus! {

broadcast use vstd::string::group_string_axioms;

/// The zsh integration script.
pub open spec fn zsh_text() -> Seq<char> {
    r#"# scrn shell integration (zsh)
# Add to .zshrc: eval "$(scrn init zsh)"

scrn() {
    local action_file
    action_file=$(mktemp "${TMPDIR:-/tmp}/scrn-action.XXXXXX")

    command scrn --action-file "$action_file" "$@"

    if [ -f "$action_file" ]; then
        local action
        action=$(cat "$action_file")
        rm -f "$action_file"

        if [ -n "$action" ]; then
            if [ -n "$STY" ]; then
                # Inside a screen session: write to pending file, then detach
                local pending_file="${TMPDIR:-/tmp}/scrn-pending-$$-$(date +%s)"
                echo "$action" > "$pending_file"
                # Store pending file path for the precmd hook on the outer shell
                echo "$pending_file" > "${TMPDIR:-/tmp}/scrn-pending-path"
                screen -X detach
            else
                eval "$action"
            fi
        fi
    else
        rm -f "$action_file"
    fi
}

_scrn_precmd() {
    local pending_path_file="${TMPDIR:-/tmp}/scrn-pending-path"
    if [ -f "$pending_path_file" ]; then
        local pending_file
        pending_file=$(cat "$pending_path_file")
        rm -f "$pending_path_file"
        if [ -f "$pending_file" ]; then
            local action
            action=$(cat "$pending_file")
            rm -f "$pending_file"
            if [ -n "$action" ]; then
                eval "$action"
            fi
        fi
    fi
}

if [[ -z "${precmd_functions[(r)_scrn_precmd]}" ]]; then
    precmd_functions+=(_scrn_precmd)
fi
"#@
}

/// The bash integration script.
pub open spec fn bash_text() -> Seq<char> {
    r#"# scrn shell integration (bash)
# Add to .bashrc: eval "$(scrn init bash)"

scrn() {
    local action_file
    action_file=$(mktemp "${TMPDIR:-/tmp}/scrn-action.XXXXXX")

    command scrn --action-file "$action_file" "$@"

    if [ -f "$action_file" ]; then
        local action
        action=$(cat "$action_file")
        rm -f "$action_file"

        if [ -n "$action" ]; then
            if [ -n "$STY" ]; then
                local pending_file="${TMPDIR:-/tmp}/scrn-pending-$$-$(date +%s)"
                echo "$action" > "$pending_file"
                echo "$pending_file" > "${TMPDIR:-/tmp}/scrn-pending-path"
                screen -X detach
            else
                eval "$action"
            fi
        fi
    else
        rm -f "$action_file"
    fi
}

_scrn_precmd() {
    local pending_path_file="${TMPDIR:-/tmp}/scrn-pending-path"
    if [ -f "$pending_path_file" ]; then
        local pending_file
        pending_file=$(cat "$pending_path_file")
        rm -f "$pending_path_file"
        if [ -f "$pending_file" ]; then
            local action
            action=$(cat "$pending_file")
            rm -f "$pending_file"
            if [ -n "$action" ]; then
                eval "$action"
            fi
        fi
    fi
}

PROMPT_COMMAND="_scrn_precmd;${PROMPT_COMMAND}"
"#@
}

/// The zsh script as an owned string.
pub fn zsh_script() -> (r: String)
    ensures
        r@ == zsh_text(),
{
    String::from_str(
        r#"# scrn shell integration (zsh)
# Add to .zshrc: eval "$(scrn init zsh)"

scrn() {
    local action_file
    action_file=$(mktemp "${TMPDIR:-/tmp}/scrn-action.XXXXXX")

    command scrn --action-file "$action_file" "$@"

    if [ -f "$action_file" ]; then
        local action
        action=$(cat "$action_file")
        rm -f "$action_file"

        if [ -n "$action" ]; then
            if [ -n "$STY" ]; then
                # Inside a screen session: write to pending file, then detach
                local pending_file="${TMPDIR:-/tmp}/scrn-pending-$$-$(date +%s)"
                echo "$action" > "$pending_file"
                # Store pending file path for the precmd hook on the outer shell
                echo "$pending_file" > "${TMPDIR:-/tmp}/scrn-pending-path"
                screen -X detach
            else
                eval "$action"
            fi
        fi
    else
        rm -f "$action_file"
    fi
}

_scrn_precmd() {
    local pending_path_file="${TMPDIR:-/tmp}/scrn-pending-path"
    if [ -f "$pending_path_file" ]; then
        local pending_file
        pending_file=$(cat "$pending_path_file")
        rm -f "$pending_path_file"
        if [ -f "$pending_file" ]; then
            local action
            action=$(cat "$pending_file")
            rm -f "$pending_file"
            if [ -n "$action" ]; then
                eval "$action"
            fi
        fi
    fi
}

if [[ -z "${precmd_functions[(r)_scrn_precmd]}" ]]; then
    precmd_functions+=(_scrn_precmd)
fi
"#,
    )
}

/// The bash script as an owned string.
pub fn bash_script() -> (r: String)
    ensures
        r@ == bash_text(),
{
    String::from_str(
        r#"# scrn shell integration (bash)
# Add to .bashrc: eval "$(scrn init bash)"

scrn() {
    local action_file
    action_file=$(mktemp "${TMPDIR:-/tmp}/scrn-action.XXXXXX")

    command scrn --action-file "$action_file" "$@"

    if [ -f "$action_file" ]; then
        local action
        action=$(cat "$action_file")
        rm -f "$action_file"

        if [ -n "$action" ]; then
            if [ -n "$STY" ]; then
                local pending_file="${TMPDIR:-/tmp}/scrn-pending-$$-$(date +%s)"
                echo "$action" > "$pending_file"
                echo "$pending_file" > "${TMPDIR:-/tmp}/scrn-pending-path"
                screen -X detach
            else
                eval "$action"
            fi
        fi
    else
        rm -f "$action_file"
    fi
}

_scrn_precmd() {
    local pending_path_file="${TMPDIR:-/tmp}/scrn-pending-path"
    if [ -f "$pending_path_file" ]; then
        local pending_file
        pending_file=$(cat "$pending_path_file")
        rm -f "$pending_path_file"
        if [ -f "$pending_file" ]; then
            local action
            action=$(cat "$pending_file")
            rm -f "$pending_file"
            if [ -n "$action" ]; then
                eval "$action"
            fi
        fi
    fi
}

PROMPT_COMMAND="_scrn_precmd;${PROMPT_COMMAND}"
"#,
    )
}

/// The integration script for the named shell, or an error naming the
/// shells that are supported.
pub fn init_script(shell: &str) -> (r: Result<String, String>)
    ensures
        shell@ == "zsh"@ ==> (r matches Ok(s) && s@ == zsh_text()),
        shell@ == "bash"@ ==> (r matches Ok(s) && s@ == bash_text()),
        shell@ != "zsh"@ && shell@ != "bash"@ ==> (r matches Err(e) && e@
            == "Unsupported shell: "@ + shell@ + ". Use 'zsh' or 'bash'."@),
{
    proof {
        reveal_strlit("zsh");
        reveal_strlit("bash");
        assert("zsh"@.len() == 3);
        assert("bash"@.len() == 4);
    }
    if str_eq(shell, "zsh") {
        Ok(zsh_script())
    } else if str_eq(shell, "bash") {
        Ok(bash_script())
    } else {
        let mut e = String::from_str("Unsupported shell: ");
        e.append(shell);
        e.append(". Use 'zsh' or 'bash'.");
        Err(e)
    }
}

} // verus!
