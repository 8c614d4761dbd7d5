use service_master::descriptor::ServiceMetadata;
use service_master::error::{ErrorKind, ServiceError};
use service_master::http::{HttpFailure, HttpMethod, HttpReply, HttpRequest};
use service_master::label_map::LabelMap;
use service_master::overlay::MetadataStore;
use service_master::settings::{get_app_settings, AppSettings, DEFAULT_OPACITY_BITS};
use service_master::sync::{
    apply_sync_data, build_webdav_auth, chrono_now, do_webdav_upload, ensure_webdav_directory,
    ensure_webdav_directory_next, format_sync_time, get_request, get_sync_data,
    get_webdav_dir_url, get_webdav_sync_url, mkcol_request, propfind_request, provider_root,
    put_request, sync_from_webdav, sync_from_webdav_next, sync_to_webdav, sync_to_webdav_next,
    test_webdav_connection, test_webdav_request, DirectoryState, DirectoryStep, PullState,
    PullStep, PushState, PushStep, WebDavSyncData,
};

const GUIDANCE: &str = "无法在坚果云根目录创建文件。\n\n请按以下步骤操作：\n1. 登录 jianguoyun.com\n2. 创建一个文件夹（如 service-master）\n3. 将服务器地址改为：\n   https://dav.jianguoyun.com/dav/service-master/\n4. 保存设置后重试";

fn reply(status: u16, body: &str) -> Result<HttpReply, HttpFailure> {
    Ok(HttpReply { status, body: Ok(body.to_string()) })
}

fn not_sent(reason: &str) -> Result<HttpReply, HttpFailure> {
    Err(HttpFailure::Send(reason.to_string()))
}

fn err(kind: ErrorKind, message: &str) -> ServiceError {
    ServiceError { kind, message: message.to_string() }
}

fn auth_header(auth: &str) -> (String, String) {
    ("Authorization".to_string(), auth.to_string())
}

fn put(url: &str, auth: &str, data: &str) -> HttpRequest {
    HttpRequest {
        method: HttpMethod::Put,
        url: url.to_string(),
        headers: vec![
            auth_header(auth),
            ("Content-Type".to_string(), "application/json; charset=utf-8".to_string()),
        ],
        body: Some(data.to_string()),
        timeout_secs: 30,
    }
}

fn get(url: &str, auth: &str) -> HttpRequest {
    HttpRequest {
        method: HttpMethod::Get,
        url: url.to_string(),
        headers: vec![auth_header(auth)],
        body: None,
        timeout_secs: 30,
    }
}

fn mkcol(url: &str, auth: &str) -> HttpRequest {
    HttpRequest {
        method: HttpMethod::Mkcol,
        url: url.to_string(),
        headers: vec![auth_header(auth)],
        body: None,
        timeout_secs: 30,
    }
}

fn propfind(url: &str, auth: &str, timeout_secs: u64) -> HttpRequest {
    HttpRequest {
        method: HttpMethod::Propfind,
        url: url.to_string(),
        headers: vec![auth_header(auth), ("Depth".to_string(), "0".to_string())],
        body: None,
        timeout_secs,
    }
}

fn settings_with_credentials() -> AppSettings {
    AppSettings {
        theme_color: "#ff0000".to_string(),
        opacity_bits: 0x3f00_0000,
        config_path: Some("/custom".to_string()),
        theme_mode: "dark".to_string(),
        webdav_url: Some("https://dav.example.com/dav".to_string()),
        webdav_username: Some("me".to_string()),
        webdav_password: Some("secret".to_string()),
        auto_launch: Some(true),
    }
}

fn overlay(name: &str) -> ServiceMetadata {
    ServiceMetadata {
        display_name: Some(name.to_string()),
        description: None,
        icon: None,
        port: Some(1),
        health_url: None,
        order: Some(2),
        project_path: None,
        app_path: None,
    }
}

fn store() -> MetadataStore {
    let mut m: MetadataStore = LabelMap::new();
    m.insert("com.a".to_string(), overlay("A"));
    m.insert("com.b".to_string(), overlay("B"));
    m
}

#[test]
fn the_authorization_is_basic_with_user_and_password_in_base64() {
    assert_eq!(build_webdav_auth("user", "pass"), Some("Basic dXNlcjpwYXNz".to_string()));
    assert_eq!(build_webdav_auth("", ""), Some("Basic Og==".to_string()));
    assert_eq!(build_webdav_auth("a", ""), Some("Basic YTo=".to_string()));
    assert_eq!(
        build_webdav_auth("Aladdin", "open sesame"),
        Some("Basic QWxhZGRpbjpvcGVuIHNlc2FtZQ==".to_string())
    );
    assert_eq!(build_webdav_auth("用户", "密码"), Some("Basic 55So5oi3OuWvhueggQ==".to_string()));
}

#[test]
fn the_document_lies_under_the_endpoint_without_trailing_slashes() {
    assert_eq!(get_webdav_sync_url("https://h/dav/x"), "https://h/dav/x/service-master-sync.json");
    assert_eq!(get_webdav_sync_url("https://h/dav/x///"), "https://h/dav/x/service-master-sync.json");
    assert_eq!(get_webdav_sync_url(""), "/service-master-sync.json");
    assert_eq!(get_webdav_sync_url("///"), "/service-master-sync.json");
    assert_eq!(get_webdav_dir_url("https://h/dav/x/"), "https://h/dav/x");
    assert_eq!(get_webdav_dir_url("https://h/dav/x"), "https://h/dav/x");
    assert_eq!(get_webdav_dir_url("/"), "");
}

#[test]
fn the_bare_root_of_the_provider_is_recognised() {
    assert!(provider_root("https://dav.jianguoyun.com/dav"));
    assert!(provider_root("https://dav.jianguoyun.com/dav/"));
    assert!(provider_root("https://other.example/dav//"));
    assert!(!provider_root("https://dav.jianguoyun.com/dav/service-master"));
    assert!(!provider_root("https://dav.jianguoyun.com/webdav"));
    assert!(!provider_root("dav"));
    assert!(!provider_root(""));
}

#[test]
fn requests_carry_their_headers() {
    assert_eq!(propfind_request("u", "a", 10), propfind("u", "a", 10));
    assert_eq!(mkcol_request("u", "a"), mkcol("u", "a"));
    assert_eq!(get_request("u", "a"), get("u", "a"));
    assert_eq!(put_request("u", "a", "{}"), put("u", "a", "{}"));
    assert_eq!(test_webdav_request("https://h/dav/", "Basic x"), propfind("https://h/dav/", "Basic x", 10));
}

#[test]
fn the_connection_test_tells_the_kinds_of_failure_apart() {
    assert_eq!(test_webdav_connection(reply(200, "")), Ok("Connection successful".to_string()));
    assert_eq!(test_webdav_connection(reply(207, "<multistatus/>")), Ok("Connection successful".to_string()));
    assert_eq!(test_webdav_connection(reply(299, "")), Ok("Connection successful".to_string()));
    assert_eq!(
        test_webdav_connection(reply(401, "")),
        Err(err(ErrorKind::AuthFailure, "Authentication failed: incorrect username or password"))
    );
    assert_eq!(
        test_webdav_connection(reply(404, "")),
        Err(err(ErrorKind::NotFound, "Path not found: check WebDAV URL"))
    );
    assert_eq!(
        test_webdav_connection(reply(500, "boom")),
        Err(err(ErrorKind::RemoteProtocolError, "Connection failed with status: 500: boom"))
    );
    assert_eq!(
        test_webdav_connection(reply(301, "")),
        Err(err(ErrorKind::RemoteProtocolError, "Connection failed with status: 301: "))
    );
    assert_eq!(
        test_webdav_connection(not_sent("dns error")),
        Err(err(ErrorKind::PermissionOrTransport, "Connection failed: dns error"))
    );
    assert_eq!(
        test_webdav_connection(Err(HttpFailure::Client("no tls".to_string()))),
        Err(err(ErrorKind::PermissionOrTransport, "Failed to create HTTP client: no tls"))
    );
}

#[test]
fn an_upload_succeeds_on_every_status_from_200_to_299() {
    for status in [200, 201, 202, 204, 207, 299] {
        assert_eq!(do_webdav_upload(reply(status, "ignored")), Ok("同步成功！".to_string()));
    }
    for status in [199, 300, 301, 400, 500] {
        assert!(do_webdav_upload(reply(status, "")).is_err(), "{}", status);
    }
}

#[test]
fn an_upload_tells_the_kinds_of_failure_apart() {
    assert_eq!(
        do_webdav_upload(reply(401, "")),
        Err(err(ErrorKind::AuthFailure, "认证失败，请检查用户名和密码"))
    );
    assert_eq!(
        do_webdav_upload(reply(404, "")),
        Err(err(
            ErrorKind::NotFound,
            "上传失败 (404): WebDAV 目录不存在。\n\n对于坚果云，请先在网页端创建一个文件夹（如 service-master），然后使用完整路径：\nhttps://dav.jianguoyun.com/dav/service-master/"
        ))
    );
    assert_eq!(
        do_webdav_upload(reply(405, "Method Not Allowed")),
        Err(err(
            ErrorKind::RemoteProtocolError,
            "不支持的操作 (405)，该 WebDAV 服务器可能不允许在此路径上传文件: Method Not Allowed"
        ))
    );
    assert_eq!(
        do_webdav_upload(reply(507, "Insufficient Storage")),
        Err(err(ErrorKind::RemoteProtocolError, "上传失败 (507): Insufficient Storage"))
    );
    assert_eq!(
        do_webdav_upload(reply(302, "")),
        Err(err(ErrorKind::RemoteProtocolError, "上传失败 (302): "))
    );
    assert_eq!(
        do_webdav_upload(Ok(HttpReply { status: 500, body: Err("decode".to_string()) })),
        Err(err(ErrorKind::RemoteProtocolError, "上传失败 (500): "))
    );
    assert_eq!(
        do_webdav_upload(not_sent("timeout")),
        Err(err(ErrorKind::PermissionOrTransport, "Upload failed: timeout"))
    );
}

#[test]
fn an_upload_to_an_ordinary_endpoint_sends_the_document_at_once() {
    let (request, state) = sync_to_webdav("https://h/files/", "Basic x", "{\"a\":1}");
    assert_eq!(request, put("https://h/files/service-master-sync.json", "Basic x", "{\"a\":1}"));
    assert_eq!(state, PushState::AwaitUpload { guided: false });
    assert_eq!(
        sync_to_webdav_next(state, "https://h/files/", "Basic x", "{\"a\":1}", reply(201, "")),
        PushStep::Finish(Ok("同步成功！".to_string()))
    );
    assert_eq!(
        sync_to_webdav_next(state, "https://h/files/", "Basic x", "{\"a\":1}", reply(401, "")),
        PushStep::Finish(Err(err(ErrorKind::AuthFailure, "认证失败，请检查用户名和密码")))
    );
}

#[test]
fn an_upload_to_the_root_of_the_provider_makes_the_directory_first() {
    let url = "https://dav.jianguoyun.com/dav/";
    let (request, state) = sync_to_webdav(url, "Basic x", "{}");
    assert_eq!(request, mkcol("https://dav.jianguoyun.com/dav/service-master", "Basic x"));
    assert_eq!(state, PushState::AwaitDirectory);
    for status in [201, 405, 301] {
        assert_eq!(
            sync_to_webdav_next(state, url, "Basic x", "{}", reply(status, "")),
            PushStep::Send {
                request: put(
                    "https://dav.jianguoyun.com/dav/service-master/service-master-sync.json",
                    "Basic x",
                    "{}"
                ),
                state: PushState::AwaitUpload { guided: false },
            }
        );
    }
}

#[test]
fn an_unconfirmed_directory_sends_the_document_to_the_endpoint_itself() {
    let url = "https://dav.jianguoyun.com/dav/";
    let fallback = PushStep::Send {
        request: put("https://dav.jianguoyun.com/dav/service-master-sync.json", "Basic x", "{}"),
        state: PushState::AwaitUpload { guided: true },
    };
    assert_eq!(sync_to_webdav_next(PushState::AwaitDirectory, url, "Basic x", "{}", reply(403, "")), fallback);
    assert_eq!(sync_to_webdav_next(PushState::AwaitDirectory, url, "Basic x", "{}", reply(200, "")), fallback);
    assert_eq!(sync_to_webdav_next(PushState::AwaitDirectory, url, "Basic x", "{}", not_sent("x")), fallback);
    assert_eq!(
        sync_to_webdav_next(
            PushState::AwaitDirectory,
            url,
            "Basic x",
            "{}",
            Err(HttpFailure::Client("c".to_string()))
        ),
        PushStep::Finish(Err(err(ErrorKind::PermissionOrTransport, "Failed to create HTTP client: c")))
    );
}

#[test]
fn a_failure_in_the_root_of_the_provider_is_answered_with_guidance() {
    let url = "https://dav.jianguoyun.com/dav";
    let state = PushState::AwaitUpload { guided: true };
    assert_eq!(
        sync_to_webdav_next(state, url, "a", "{}", reply(204, "")),
        PushStep::Finish(Ok("同步成功！".to_string()))
    );
    assert_eq!(
        sync_to_webdav_next(state, url, "a", "{}", reply(403, "no")),
        PushStep::Finish(Err(err(ErrorKind::RemoteProtocolError, GUIDANCE)))
    );
    assert_eq!(
        sync_to_webdav_next(state, url, "a", "{}", reply(404, "")),
        PushStep::Finish(Err(err(ErrorKind::NotFound, GUIDANCE)))
    );
    assert_eq!(
        sync_to_webdav_next(state, url, "a", "{}", not_sent("down")),
        PushStep::Finish(Err(err(ErrorKind::PermissionOrTransport, GUIDANCE)))
    );
}

#[test]
fn a_download_asks_where_the_document_is_expected() {
    assert_eq!(
        sync_from_webdav("https://h/files", "a"),
        (get("https://h/files/service-master-sync.json", "a"), PullState::AwaitPrimary)
    );
    assert_eq!(
        sync_from_webdav("https://dav.jianguoyun.com/dav/", "a"),
        (
            get("https://dav.jianguoyun.com/dav/service-master/service-master-sync.json", "a"),
            PullState::AwaitPrimary
        )
    );
}

#[test]
fn a_download_hands_over_the_document() {
    assert_eq!(
        sync_from_webdav_next(PullState::AwaitPrimary, "https://h/files", "a", reply(200, "{\"x\":1}")),
        PullStep::Apply("{\"x\":1}".to_string())
    );
    assert_eq!(
        sync_from_webdav_next(PullState::AwaitFallback, "https://h/dav", "a", reply(206, "doc")),
        PullStep::Apply("doc".to_string())
    );
}

#[test]
fn a_download_tells_the_kinds_of_failure_apart() {
    let url = "https://h/files";
    let next = |outcome| sync_from_webdav_next(PullState::AwaitPrimary, url, "a", outcome);
    assert_eq!(
        next(reply(404, "")),
        PullStep::Finish(err(ErrorKind::NotFound, "未找到同步数据。请先上传配置到 WebDAV。"))
    );
    assert_eq!(
        next(reply(401, "")),
        PullStep::Finish(err(ErrorKind::AuthFailure, "认证失败，请检查用户名和密码"))
    );
    assert_eq!(
        next(reply(500, "X")),
        PullStep::Finish(err(ErrorKind::RemoteProtocolError, "下载失败 (500): X"))
    );
    assert_eq!(
        next(reply(302, "moved")),
        PullStep::Finish(err(ErrorKind::RemoteProtocolError, "下载失败 (302): moved"))
    );
    assert_eq!(
        next(Ok(HttpReply { status: 503, body: Err("bad utf8".to_string()) })),
        PullStep::Finish(err(ErrorKind::RemoteProtocolError, "下载失败 (503): "))
    );
    assert_eq!(
        next(not_sent("refused")),
        PullStep::Finish(err(ErrorKind::PermissionOrTransport, "Download failed: refused"))
    );
    assert_eq!(
        next(Err(HttpFailure::Client("c".to_string()))),
        PullStep::Finish(err(ErrorKind::PermissionOrTransport, "Failed to create HTTP client: c"))
    );
    assert_eq!(
        next(Ok(HttpReply { status: 200, body: Err("bad utf8".to_string()) })),
        PullStep::Finish(err(ErrorKind::PermissionOrTransport, "Failed to read response: bad utf8"))
    );
}

#[test]
fn a_document_missing_from_the_directory_of_the_provider_is_looked_for_in_the_root() {
    let url = "https://dav.jianguoyun.com/dav";
    assert_eq!(
        sync_from_webdav_next(PullState::AwaitPrimary, url, "a", reply(404, "")),
        PullStep::Send {
            request: get("https://dav.jianguoyun.com/dav/service-master-sync.json", "a"),
            state: PullState::AwaitFallback,
        }
    );
    assert_eq!(
        sync_from_webdav_next(PullState::AwaitFallback, url, "a", reply(404, "")),
        PullStep::Finish(err(ErrorKind::NotFound, "未找到同步数据。请先上传配置到 WebDAV。"))
    );
    assert_eq!(
        sync_from_webdav_next(PullState::AwaitPrimary, url, "a", reply(401, "")),
        PullStep::Finish(err(ErrorKind::AuthFailure, "认证失败，请检查用户名和密码"))
    );
    assert_eq!(
        sync_from_webdav_next(PullState::AwaitFallback, url, "a", reply(500, "oops")),
        PullStep::Finish(err(ErrorKind::RemoteProtocolError, "下载失败 (500): oops"))
    );
}

#[test]
fn a_directory_that_answers_the_probe_is_there() {
    let (request, state) = ensure_webdav_directory("https://h/dav/x/", "a");
    assert_eq!(request, propfind("https://h/dav/x", "a", 30));
    assert_eq!(state, DirectoryState::AwaitProbe);
    assert_eq!(
        ensure_webdav_directory_next(state, "https://h/dav/x/", "a", reply(207, "")),
        DirectoryStep::Finish(Ok(()))
    );
    assert_eq!(
        ensure_webdav_directory_next(state, "https://h/dav/x/", "a", reply(200, "")),
        DirectoryStep::Finish(Ok(()))
    );
}

#[test]
fn a_directory_that_does_not_answer_the_probe_is_made() {
    let send = DirectoryStep::Send { request: mkcol("https://h/dav/x", "a"), state: DirectoryState::AwaitCreate };
    assert_eq!(ensure_webdav_directory_next(DirectoryState::AwaitProbe, "https://h/dav/x/", "a", reply(404, "")), send);
    assert_eq!(ensure_webdav_directory_next(DirectoryState::AwaitProbe, "https://h/dav/x/", "a", not_sent("x")), send);
    for status in [201, 405, 409] {
        assert_eq!(
            ensure_webdav_directory_next(DirectoryState::AwaitCreate, "u", "a", reply(status, "")),
            DirectoryStep::Finish(Ok(()))
        );
    }
    assert_eq!(
        ensure_webdav_directory_next(DirectoryState::AwaitCreate, "u", "a", reply(403, "denied")),
        DirectoryStep::Finish(Err(err(
            ErrorKind::RemoteProtocolError,
            "Failed to create WebDAV directory: 403: denied"
        )))
    );
    assert_eq!(
        ensure_webdav_directory_next(DirectoryState::AwaitCreate, "u", "a", not_sent("down")),
        DirectoryStep::Finish(Err(err(ErrorKind::PermissionOrTransport, "Failed to create directory: down")))
    );
}

#[test]
fn the_payload_carries_no_credentials() {
    let payload = get_sync_data(store(), Some(settings_with_credentials()), "1700000000".to_string());
    assert_eq!(payload.metadata, store());
    assert_eq!(payload.sync_time, "1700000000");
    assert_eq!(payload.settings.webdav_url, None);
    assert_eq!(payload.settings.webdav_username, None);
    assert_eq!(payload.settings.webdav_password, None);
    assert_eq!(payload.settings.theme_color, "#ff0000");
    assert_eq!(payload.settings.opacity_bits, 0x3f00_0000);
    assert_eq!(payload.settings.config_path, Some("/custom".to_string()));
    assert_eq!(payload.settings.theme_mode, "dark");
    assert_eq!(payload.settings.auto_launch, Some(true));
    let fresh = get_sync_data(store(), None, "t".to_string());
    assert_eq!(fresh.settings, AppSettings::default());
}

#[test]
fn applying_a_payload_keeps_the_local_credentials() {
    let remote = WebDavSyncData {
        metadata: store(),
        settings: AppSettings {
            theme_color: "#00ff00".to_string(),
            opacity_bits: 1,
            config_path: None,
            theme_mode: "light".to_string(),
            webdav_url: Some("https://attacker".to_string()),
            webdav_username: Some("them".to_string()),
            webdav_password: None,
            auto_launch: None,
        },
        sync_time: "1700000000".to_string(),
    };
    let applied = apply_sync_data(Ok(remote), settings_with_credentials()).unwrap();
    assert_eq!(applied.metadata, store());
    assert_eq!(applied.message, "同步成功！(同步时间: 1700000000)");
    assert_eq!(applied.settings.webdav_url, Some("https://dav.example.com/dav".to_string()));
    assert_eq!(applied.settings.webdav_username, Some("me".to_string()));
    assert_eq!(applied.settings.webdav_password, Some("secret".to_string()));
    assert_eq!(applied.settings.theme_color, "#00ff00");
    assert_eq!(applied.settings.opacity_bits, 1);
    assert_eq!(applied.settings.config_path, None);
    assert_eq!(applied.settings.theme_mode, "light");
    assert_eq!(applied.settings.auto_launch, None);
}

#[test]
fn a_document_that_cannot_be_read_is_a_failure() {
    assert_eq!(
        apply_sync_data(Err("expected value at line 1 column 1".to_string()), AppSettings::default()),
        Err(err(ErrorKind::ParseFailure, "无法解析同步数据: expected value at line 1 column 1"))
    );
}

#[test]
fn uploading_and_then_downloading_gives_the_local_state_back() {
    let local = settings_with_credentials();
    let payload = get_sync_data(store(), Some(local.clone()), "5".to_string());
    let applied = apply_sync_data(Ok(payload), local.clone()).unwrap();
    assert_eq!(applied.metadata, store());
    assert_eq!(applied.settings, local);
}

#[test]
fn the_time_stamp_is_a_number_of_seconds_in_decimal() {
    assert_eq!(format_sync_time(Some(0)), "0");
    assert_eq!(format_sync_time(Some(1700000000)), "1700000000");
    assert_eq!(format_sync_time(None), "0");
    let now = chrono_now();
    assert!(!now.is_empty());
    assert!(now.chars().all(|c| c.is_ascii_digit()));
    assert!(now.parse::<u64>().unwrap() > 1_600_000_000);
}

#[test]
fn fresh_settings_have_the_documented_values() {
    let s = AppSettings::default();
    assert_eq!(s.theme_color, "#3b82f6");
    assert_eq!(s.opacity_bits, DEFAULT_OPACITY_BITS);
    assert_eq!(f32::from_bits(s.opacity_bits), 0.8f32);
    assert_eq!(s.config_path, None);
    assert_eq!(s.theme_mode, "auto");
    assert_eq!(s.webdav_url, None);
    assert_eq!(s.webdav_username, None);
    assert_eq!(s.webdav_password, None);
    assert_eq!(s.auto_launch, Some(false));
    assert_eq!(get_app_settings(None), AppSettings::default());
    assert_eq!(get_app_settings(Some(settings_with_credentials())), settings_with_credentials());
}
