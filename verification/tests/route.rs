use grup::route::Route;
use grup::route::route_request;

#[test]
fn update_path_is_the_long_poll() {
    assert_eq!(route_request("/update", false), Route::LongPoll);
    assert_eq!(route_request("/update", true), Route::LongPoll);
}

#[test]
fn root_path_is_the_page() {
    assert_eq!(route_request("/", false), Route::Page);
    assert_eq!(route_request("/", true), Route::Page);
}

#[test]
fn style_path_is_the_stylesheet() {
    assert_eq!(route_request("/style.css", false), Route::Stylesheet);
    assert_eq!(route_request("/style.css", true), Route::Stylesheet);
}

#[test]
fn unknown_path_depends_on_the_static_flag() {
    assert_eq!(route_request("/img.png", true), Route::StaticAsset);
    assert_eq!(route_request("/img.png", false), Route::NotFound);
    assert_eq!(route_request("/update/", false), Route::NotFound);
    assert_eq!(route_request("", false), Route::NotFound);
}
