use gitweb::resolve::resolve_branch;
use gitweb::resolve::resolve_browser;
use gitweb::resolve::resolve_remote_name;
use gitweb::resolve::resolve_remote_url;
use gitweb::resolve::BrowserChoice;
use gitweb::resolve::HeadState;
use gitweb::resolve::Opt;
use gitweb::resolve::RemoteState;
use gitweb::resolve::ResolveError;

#[test]
fn explicit_branch_wins_over_any_head_state() {
    let states = [
        HeadState::Named("develop".to_string()),
        HeadState::Unnamed,
        HeadState::Unborn,
        HeadState::Failed,
    ];
    for state in states {
        let r = resolve_branch(Some("feature".to_string()), state);
        assert_eq!(r, Ok("feature".to_string()));
    }
}

#[test]
fn named_head_gives_its_short_name() {
    let r = resolve_branch(None, HeadState::Named("develop".to_string()));
    assert_eq!(r, Ok("develop".to_string()));
}

#[test]
fn unborn_head_defaults_to_master() {
    let r = resolve_branch(None, HeadState::Unborn);
    assert_eq!(r, Ok("master".to_string()));
}

#[test]
fn unnamed_head_defaults_to_master() {
    let r = resolve_branch(None, HeadState::Unnamed);
    assert_eq!(r, Ok("master".to_string()));
}

#[test]
fn failed_head_is_fatal() {
    let r = resolve_branch(None, HeadState::Failed);
    assert_eq!(r, Err(ResolveError::UnresolvableHead));
    assert_eq!(
        ResolveError::UnresolvableHead.message(),
        "failed to get head ref"
    );
}

#[test]
fn absent_remote_name_defaults_to_origin() {
    assert_eq!(resolve_remote_name(None), "origin");
}

#[test]
fn explicit_remote_name_is_kept() {
    assert_eq!(resolve_remote_name(Some("upstream".to_string())), "upstream");
}

#[test]
fn missing_origin_is_fatal_unknown_remote() {
    let name = resolve_remote_name(None);
    assert_eq!(name, "origin");
    let r = resolve_remote_url(RemoteState::Missing);
    assert_eq!(r, Err(ResolveError::UnknownRemote));
    assert_eq!(ResolveError::UnknownRemote.message(), "failed to get remote");
}

#[test]
fn remote_without_url_is_fatal() {
    let r = resolve_remote_url(RemoteState::NoUrl);
    assert_eq!(r, Err(ResolveError::RemoteWithoutUrl));
    assert_eq!(ResolveError::RemoteWithoutUrl.message(), "no remote available");
}

#[test]
fn configured_remote_url_is_returned() {
    let r = resolve_remote_url(RemoteState::Url("git@h:p.git".to_string()));
    assert_eq!(r, Ok("git@h:p.git".to_string()));
}

#[test]
fn explicit_browser_wins_over_environment() {
    let r = resolve_browser(Some("firefox".to_string()), Some("lynx".to_string()));
    assert_eq!(r, BrowserChoice::Command("firefox".to_string()));
}

#[test]
fn environment_browser_wins_over_system_default() {
    let r = resolve_browser(None, Some("lynx".to_string()));
    assert_eq!(r, BrowserChoice::Command("lynx".to_string()));
}

#[test]
fn without_any_browser_the_system_default_is_used() {
    let r = resolve_browser(None, None);
    assert_eq!(r, BrowserChoice::SystemDefault);
}

#[test]
fn options_carry_the_four_overrides() {
    let opt = Opt {
        branch: Some("main".to_string()),
        browser: None,
        remote: Some("upstream".to_string()),
        verbose: true,
    };
    let kept = opt.clone();
    assert_eq!(kept.branch, Some("main".to_string()));
    assert_eq!(kept.browser, None);
    assert_eq!(kept.remote, Some("upstream".to_string()));
    assert!(kept.verbose);
}
