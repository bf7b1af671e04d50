use wrywebview::bounds::Bounds;
use wrywebview::command::Command;
use wrywebview::dispatch::{
    route, run_on_main_thread, strategy_for, Completion, Route, Strategy,
};
use wrywebview::error::WebViewError;
use wrywebview::handle::Platform;

#[test]
fn each_platform_has_its_strategy() {
    assert_eq!(strategy_for(Platform::MacOs), Strategy::ReentrantMain);
    assert_eq!(strategy_for(Platform::Linux), Strategy::DedicatedThread);
    assert_eq!(strategy_for(Platform::Windows), Strategy::Direct);
    assert_eq!(strategy_for(Platform::Other), Strategy::Direct);
}

#[test]
fn work_on_the_designated_thread_runs_inline() {
    for strategy in [Strategy::Direct, Strategy::ReentrantMain, Strategy::DedicatedThread] {
        for completion in [Completion::Awaited, Completion::FireAndForget] {
            assert_eq!(route(strategy, true, completion), Route::Inline);
        }
    }
}

#[test]
fn direct_strategy_never_posts() {
    assert_eq!(route(Strategy::Direct, false, Completion::Awaited), Route::Inline);
    assert_eq!(route(Strategy::Direct, false, Completion::FireAndForget), Route::Inline);
}

#[test]
fn foreign_threads_post_and_wait_unless_told_to_forget() {
    for strategy in [Strategy::ReentrantMain, Strategy::DedicatedThread] {
        assert_eq!(route(strategy, false, Completion::Awaited), Route::PostAndWait);
        assert_eq!(route(strategy, false, Completion::FireAndForget), Route::PostAndForget);
    }
}

#[test]
fn only_repositioning_may_be_forgotten() {
    let bounds = Bounds { x: 0, y: 0, width: 10, height: 10 };
    assert_eq!(Command::SetBounds(bounds).completion(), Completion::FireAndForget);
    let awaited = [
        Command::LoadUrl("u".to_string()),
        Command::LoadUrlWithHeaders("u".to_string(), vec![("a".to_string(), "b".to_string())]),
        Command::LoadHtml("<p>".to_string()),
        Command::StopLoading,
        Command::GoBack,
        Command::GoForward,
        Command::Reload,
        Command::Focus,
        Command::EvaluateScript("1+1".to_string()),
        Command::CanGoBack,
        Command::CanGoForward,
        Command::GetCookiesForUrl("u".to_string()),
        Command::ClearCookiesForUrl("u".to_string()),
        Command::ClearAllCookies,
    ];
    for command in awaited {
        assert_eq!(command.completion(), Completion::Awaited);
    }
}

#[test]
fn loading_flag_follows_loads_and_stops() {
    assert_eq!(Command::LoadUrl("u".to_string()).loading_after(), Some(true));
    assert_eq!(Command::LoadHtml("h".to_string()).loading_after(), Some(true));
    assert_eq!(
        Command::LoadUrlWithHeaders("u".to_string(), Vec::new()).loading_after(),
        Some(true)
    );
    assert_eq!(Command::StopLoading.loading_after(), Some(false));
    assert_eq!(Command::Reload.loading_after(), None);
    assert_eq!(Command::GoBack.loading_after(), None);
    assert_eq!(Command::Focus.loading_after(), None);
    assert_eq!(
        Command::SetBounds(Bounds { x: 0, y: 0, width: 1, height: 1 }).loading_after(),
        None
    );
}

#[test]
fn normalize_clamps_bounds_and_keeps_the_rest() {
    let requested = Command::SetBounds(Bounds { x: 5, y: 6, width: 0, height: -1 });
    assert_eq!(
        requested.normalize(),
        Command::SetBounds(Bounds { x: 5, y: 6, width: 1, height: 1 })
    );
    assert_eq!(Command::LoadUrl("u".to_string()).normalize(), Command::LoadUrl("u".to_string()));
    assert_eq!(Command::GoBack.normalize(), Command::GoBack);
}

#[test]
fn run_on_main_thread_hands_the_result_through() {
    assert_eq!(run_on_main_thread(|| Ok::<u32, WebViewError>(5)), Ok(5));
    assert_eq!(
        run_on_main_thread(|| Err::<u32, WebViewError>(WebViewError::WrongThread(3))),
        Err(WebViewError::WrongThread(3))
    );
    let mut ran = 0;
    let r = run_on_main_thread(|| {
        ran += 1;
        Ok::<(), WebViewError>(())
    });
    assert_eq!(r, Ok(()));
    assert_eq!(ran, 1);
}
