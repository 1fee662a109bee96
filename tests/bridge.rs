use file_manager::action::Action;
use file_manager::dispatch::add_requests;
use file_manager::json::decimal_text;
use file_manager::method::BitburnerMethod;
use file_manager::request::{IdCounter, Request};
use file_manager::response::{join_lines, process_response, Outcome, Payload, Response};
use file_manager::resume::ResumeLatch;
use file_manager::session::{handle_close, Session};
use file_manager::table::RequestTable;
use file_manager::text::{text_ends_with, text_eq, text_starts_with};
use file_manager::walk::{classify_entry, push_name, EntryAction, PROJECT_ROOT};

fn files(list: &[(&str, &str)]) -> Vec<(String, String)> {
    list.iter().map(|(n, c)| (n.to_string(), c.to_string())).collect()
}

fn push_request_with_id(id: u64, name: &str) -> Request {
    let mut ids = IdCounter { next: id };
    Request::push_file(&mut ids, name, "content")
}

#[test]
fn action_labels_round_trip() {
    for a in Action::menu() {
        assert_eq!(Action::from(a.as_str()), Some(a));
    }
    assert_eq!(Action::PushAllFiles.as_str(), "push all files");
    assert_eq!(Action::GetDefinitions.as_str(), "show definitions");
    assert_eq!(Action::GetAllFileNames.as_str(), "show all filenames on home");
    assert_eq!(Action::Quit.as_str(), "quit");
}

#[test]
fn unknown_selection_is_no_action() {
    assert_eq!(Action::from("push all file"), None);
    assert_eq!(Action::from(""), None);
    assert_eq!(Action::from("QUIT"), None);
}

#[test]
fn menu_order_and_methods() {
    assert_eq!(
        Action::menu(),
        vec![Action::GetAllFileNames, Action::PushAllFiles, Action::GetDefinitions, Action::Quit]
    );
    assert_eq!(Action::PushAllFiles.method(), Some(BitburnerMethod::PushFile));
    assert_eq!(Action::GetDefinitions.method(), Some(BitburnerMethod::GetDefinitionFile));
    assert_eq!(Action::GetAllFileNames.method(), Some(BitburnerMethod::GetFileNames));
    assert_eq!(Action::Quit.method(), None);
}

#[test]
fn wire_names() {
    assert_eq!(BitburnerMethod::PushFile.wire_name(), "pushFile");
    assert_eq!(BitburnerMethod::GetFile.wire_name(), "getFile");
    assert_eq!(BitburnerMethod::DeleteFile.wire_name(), "deleteFile");
    assert_eq!(BitburnerMethod::GetFileNames.wire_name(), "getFileNames");
    assert_eq!(BitburnerMethod::GetAllFiles.wire_name(), "getAllFiles");
    assert_eq!(BitburnerMethod::CalculateRam.wire_name(), "calculateRam");
    assert_eq!(BitburnerMethod::GetDefinitionFile.wire_name(), "getDefinitionFile");
}

#[test]
fn ids_strictly_increase() {
    let mut ids = IdCounter::new();
    let a = ids.allocate();
    let b = ids.allocate();
    let c = Request::get_file_names(&mut ids).id;
    let d = Request::get_definition_file(&mut ids).id;
    let e = Request::push_file(&mut ids, "x.js", "").id;
    assert_eq!(vec![a, b, c, d, e], vec![0, 1, 2, 3, 4]);
    assert_eq!(ids.next, 5);
}

#[test]
fn counter_room() {
    let ids = IdCounter { next: u64::MAX - 2 };
    assert!(ids.can_allocate(2));
    assert!(!ids.can_allocate(3));
}

#[test]
fn file_names_request_json() {
    let mut ids = IdCounter::new();
    let r = Request::get_file_names(&mut ids);
    assert_eq!(r.to_json(), r#"{"jsonrpc":"2.0","id":0,"method":"getFileNames","params":{"server":"home"}}"#);
}

#[test]
fn definition_request_json_has_no_params() {
    let mut ids = IdCounter { next: 41 };
    let r = Request::get_definition_file(&mut ids);
    assert_eq!(r.to_json(), r#"{"jsonrpc":"2.0","id":41,"method":"getDefinitionFile"}"#);
}

#[test]
fn push_request_json_escapes_content() {
    let mut ids = IdCounter { next: 1234567890 };
    let r = Request::push_file(&mut ids, "sub/b.js", "let s = \"a\\b\";\n\tx\u{1}");
    assert_eq!(
        r.to_json(),
        "{\"jsonrpc\":\"2.0\",\"id\":1234567890,\"method\":\"pushFile\",\"params\":{\"server\":\"home\",\"filename\":\"sub/b.js\",\"content\":\"let s = \\\"a\\\\b\\\";\\n\\tx\\u0001\"}}"
    );
}

#[test]
fn push_request_params() {
    let r = push_request_with_id(3, "a.js");
    assert_eq!(r.param("filename"), Some("a.js".to_string()));
    assert_eq!(r.param("server"), Some("home".to_string()));
    assert_eq!(r.param("content"), Some("content".to_string()));
    assert_eq!(r.param("missing"), None);
    let copy = r.duplicate();
    assert_eq!(copy.to_json(), r.to_json());
}

#[test]
fn request_json_escapes_every_control_character() {
    let mut ids = IdCounter::new();
    let r = Request::push_file(&mut ids, "plain ü", "q\"b\\\u{8}\u{c}\r\u{1f}\u{7f}");
    assert_eq!(
        r.to_json(),
        "{\"jsonrpc\":\"2.0\",\"id\":0,\"method\":\"pushFile\",\"params\":{\"server\":\"home\",\"filename\":\"plain ü\",\"content\":\"q\\\"b\\\\\\b\\f\\r\\u001f\u{7f}\"}}"
    );
    let empty = Request::push_file(&mut ids, "", "");
    assert_eq!(
        empty.to_json(),
        r#"{"jsonrpc":"2.0","id":1,"method":"pushFile","params":{"server":"home","filename":"","content":""}}"#
    );
}

#[test]
fn decimal_text_values() {
    assert_eq!(decimal_text(0), "0");
    assert_eq!(decimal_text(9), "9");
    assert_eq!(decimal_text(10), "10");
    assert_eq!(decimal_text(907), "907");
    assert_eq!(decimal_text(u64::MAX), "18446744073709551615");
}

#[test]
fn text_helpers() {
    assert!(text_eq("abc", "abc"));
    assert!(!text_eq("abc", "abd"));
    assert!(!text_eq("abc", "ab"));
    assert!(text_ends_with("a.js", ".js"));
    assert!(!text_ends_with("a.json", ".js"));
    assert!(!text_ends_with("js", ".js"));
    assert!(text_starts_with("../a.js", ".."));
    assert!(!text_starts_with("./a.js", ".."));
}

#[test]
fn table_register_and_resolve() {
    let mut table = RequestTable::new();
    assert!(table.is_empty());
    table.register(push_request_with_id(5, "a.js"), BitburnerMethod::PushFile);
    assert!(!table.is_empty());
    assert_eq!(table.len(), 1);
    assert!(table.contains(5));
    let e = table.resolve(5).expect("pending entry");
    assert_eq!(e.method, BitburnerMethod::PushFile);
    assert_eq!(e.request.id, 5);
    assert!(table.is_empty());
}

#[test]
fn resolve_unknown_or_twice_gives_nothing() {
    let mut table = RequestTable::new();
    table.register(push_request_with_id(1, "a.js"), BitburnerMethod::PushFile);
    table.register(push_request_with_id(2, "b.js"), BitburnerMethod::PushFile);
    assert!(table.resolve(9).is_none());
    assert_eq!(table.len(), 2);
    assert!(table.resolve(1).is_some());
    assert!(table.resolve(1).is_none());
    assert_eq!(table.len(), 1);
    assert!(table.contains(2));
}

#[test]
fn answering_all_in_any_order_resumes_once() {
    let mut session = Session::new();
    let list = files(&[("a.js", "1"), ("b.js", "2"), ("c.js", "3"), ("d.js", "4")]);
    let requests = session.dispatch(BitburnerMethod::PushFile, &list).expect("ids left");
    assert_eq!(requests.len(), 4);
    let order = [2u64, 0, 3, 1];
    let mut resumes = vec![];
    for id in order {
        let p = session.answer(Response::StringResponse { id, result: Some("ok".to_string()), error: None });
        resumes.push(p.resume);
    }
    assert_eq!(resumes, vec![false, false, false, true]);
    assert!(session.is_idle());
    let again = session.answer(Response::StringResponse { id: 1, result: Some("ok".to_string()), error: None });
    assert!(!again.resume);
    assert!(matches!(again.outcome, Outcome::UnknownId { id: 1 }));
}

#[test]
fn push_expansion_over_fixture_tree() {
    // A walk over {a.js, sub/b.js, file-manager/ignored.js, readme.txt}
    // rooted one level above the bridge's own directory.
    let entries = [
        ("..", "..", true, false),
        ("../a.js", "a.js", false, true),
        ("../file-manager", "file-manager", true, false),
        ("../readme.txt", "readme.txt", false, true),
        ("../sub", "sub", true, false),
        ("../sub/b.js", "b.js", false, true),
    ];
    let mut names = vec![];
    let mut skipped = vec![];
    for (path, name, is_dir, is_file) in entries {
        match classify_entry(PROJECT_ROOT, path, name, is_dir, is_file) {
            EntryAction::Push(n) => names.push(n),
            EntryAction::SkipDir => skipped.push(path),
            EntryAction::Ignore => {}
        }
    }
    assert_eq!(names, vec!["a.js".to_string(), "sub/b.js".to_string()]);
    assert_eq!(skipped, vec!["../file-manager"]);
    assert!(matches!(
        classify_entry(PROJECT_ROOT, "../file-manager/ignored.js", "ignored.js", false, true),
        EntryAction::Push(_)
    ));

    let list: Vec<(String, String)> = names.iter().map(|n| (n.clone(), String::new())).collect();
    let mut requests = vec![];
    let mut table = RequestTable::new();
    let mut ids = IdCounter::new();
    add_requests(&mut requests, BitburnerMethod::PushFile, &mut table, &mut ids, &list);
    assert_eq!(requests.len(), 2);
    assert_eq!(requests[0].param("filename"), Some("a.js".to_string()));
    assert_eq!(requests[1].param("filename"), Some("sub/b.js".to_string()));
    assert_eq!(table.len(), 2);
}

#[test]
fn push_names() {
    assert_eq!(push_name("..", "../a.js"), Some("a.js".to_string()));
    assert_eq!(push_name("..", "../x/y/z.js"), Some("x/y/z.js".to_string()));
    assert_eq!(push_name("..", "./a.js"), None);
    assert_eq!(push_name("..", ".."), None);
    assert_eq!(push_name("..", "../"), None);
}

#[test]
fn string_result_for_push_renders_filename() {
    let mut session = Session { request_map: RequestTable::new(), ids: IdCounter { next: 7 } };
    let sent = session.dispatch(BitburnerMethod::PushFile, &files(&[("a.js", "x")])).expect("ids left");
    assert_eq!(sent[0].id, 7);
    let p = session.answer(Response::StringResponse { id: 7, result: Some("ok".to_string()), error: None });
    assert_eq!(p.outcome.result_text(), Some("a.js: ok".to_string()));
    assert_eq!(p.outcome.error_text(), None);
    assert!(p.resume);
    assert!(!session.request_map.contains(7));
}

#[test]
fn list_result_renders_all_names() {
    let mut table = RequestTable::new();
    let mut ids = IdCounter { next: 3 };
    table.register(Request::get_file_names(&mut ids), BitburnerMethod::GetFileNames);
    let response = Response::VecResponse {
        id: 3,
        result: Some(vec!["a.js".to_string(), "b.js".to_string()]),
        error: None,
    };
    let p = process_response(response, &mut table);
    match &p.outcome {
        Outcome::Answered { id, method, result: Some(Payload::Names(v)), error: None, .. } => {
            assert_eq!(*id, 3);
            assert_eq!(*method, BitburnerMethod::GetFileNames);
            assert_eq!(v, &vec!["a.js".to_string(), "b.js".to_string()]);
        }
        _ => panic!("expected a list result"),
    }
    assert_eq!(p.outcome.result_text(), Some("a.js\nb.js".to_string()));
    assert!(!table.contains(3));
    assert!(p.resume);
}

#[test]
fn unknown_id_leaves_table_and_later_answers_work() {
    let mut table = RequestTable::new();
    let mut ids = IdCounter { next: 10 };
    table.register(Request::get_definition_file(&mut ids), BitburnerMethod::GetDefinitionFile);
    let p = process_response(
        Response::StringResponse { id: 99, result: Some("x".to_string()), error: None },
        &mut table,
    );
    assert!(matches!(p.outcome, Outcome::UnknownId { id: 99 }));
    assert!(!p.resume);
    assert_eq!(table.len(), 1);
    assert!(table.contains(10));
    let q = process_response(
        Response::StringResponse { id: 10, result: Some("defs".to_string()), error: None },
        &mut table,
    );
    assert_eq!(q.outcome.result_text(), Some("defs".to_string()));
    assert!(q.resume);
    assert!(table.is_empty());
}

#[test]
fn remote_error_names_operation_and_file() {
    let mut session = Session::new();
    session.dispatch(BitburnerMethod::PushFile, &files(&[("a.js", ""), ("b.js", "")])).expect("ids left");
    let p = session.answer(Response::StringResponse { id: 1, result: None, error: Some("denied".to_string()) });
    assert_eq!(p.outcome.error_text(), Some("pushFile failed for b.js: denied".to_string()));
    assert_eq!(p.outcome.result_text(), None);
    assert!(!p.resume);
    assert!(session.request_map.contains(0));
    session.dispatch(BitburnerMethod::GetFileNames, &vec![]).expect("ids left");
    let q = session.answer(Response::VecResponse { id: 2, result: None, error: Some("no".to_string()) });
    assert_eq!(q.outcome.error_text(), Some("getFileNames failed: no".to_string()));
}

#[test]
fn answer_without_result_or_error_is_reported() {
    let mut session = Session::new();
    session.dispatch(BitburnerMethod::GetDefinitionFile, &vec![]).expect("ids left");
    let p = session.answer(Response::StringResponse { id: 0, result: None, error: None });
    assert!(matches!(p.outcome, Outcome::Empty { id: 0, method: BitburnerMethod::GetDefinitionFile }));
    assert_eq!(p.outcome.result_text(), None);
    assert_eq!(p.outcome.error_text(), None);
    assert!(p.resume);
}

#[test]
fn non_push_result_renders_raw() {
    let mut session = Session::new();
    session.dispatch(BitburnerMethod::GetDefinitionFile, &vec![]).expect("ids left");
    let p = session.answer(Response::StringResponse { id: 0, result: Some("a: b".to_string()), error: None });
    assert_eq!(p.outcome.result_text(), Some("a: b".to_string()));
}

#[test]
fn dispatch_single_requests_and_exhaustion() {
    let mut session = Session::new();
    let r = session.dispatch(BitburnerMethod::GetFileNames, &vec![]).expect("ids left");
    assert_eq!(r.len(), 1);
    assert_eq!(r[0].method, BitburnerMethod::GetFileNames);
    let mut full = Session { request_map: RequestTable::new(), ids: IdCounter { next: u64::MAX } };
    assert!(full.dispatch(BitburnerMethod::GetFileNames, &vec![]).is_none());
    assert!(full.is_idle());
    assert_eq!(full.ids.next, u64::MAX);
    let empty_push = session.dispatch(BitburnerMethod::PushFile, &vec![]).expect("ids left");
    assert!(empty_push.is_empty());
    assert_eq!(handle_close(session), 1);
}

#[test]
fn join_lines_values() {
    assert_eq!(join_lines(&vec![]), "");
    assert_eq!(join_lines(&vec!["x".to_string()]), "x");
    assert_eq!(join_lines(&vec!["x".to_string(), "".to_string(), "z".to_string()]), "x\n\nz");
}

#[test]
fn latch_is_idempotent() {
    let mut latch = ResumeLatch::new();
    assert!(!latch.is_raised());
    assert!(!latch.take());
    latch.raise();
    latch.raise();
    assert!(latch.is_raised());
    assert!(latch.take());
    assert!(!latch.take());
}
