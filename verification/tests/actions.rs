use downloader_hub::actions::{all_new, ActionRequest, ActionResult};
use downloader_hub::options::ActionOptions;

fn request(path: &str) -> ActionRequest {
    ActionRequest { file_path: path.to_string(), options: ActionOptions::new() }
}

fn files(list: &[&str]) -> Vec<String> {
    list.iter().map(|f| f.to_string()).collect()
}

#[test]
fn an_action_hands_back_new_files() {
    let result =
        ActionResult::new(&request("/tmp/in.mp4"), files(&["/tmp/a.mp4", "/tmp/b.mp4"]), None).unwrap();
    assert_eq!(result.output_files(), &files(&["/tmp/a.mp4", "/tmp/b.mp4"]));
    assert_eq!(result.diagnostic(), &None);
}

#[test]
fn an_action_may_hand_back_nothing_but_a_note() {
    let result =
        ActionResult::new(&request("/tmp/in.png"), Vec::new(), Some("no text found".to_string())).unwrap();
    assert!(result.output_files().is_empty());
    assert_eq!(result.diagnostic(), &Some("no text found".to_string()));
}

#[test]
fn the_input_is_never_an_output() {
    assert!(ActionResult::new(&request("/tmp/in.mp4"), files(&["/tmp/a", "/tmp/in.mp4"]), None).is_none());
    assert!(all_new(&files(&["a", "b"]), "c"));
    assert!(!all_new(&files(&["a", "b"]), "b"));
    assert!(all_new(&Vec::new(), "b"));
}
