use mudroom::network::discovery::DiscoveredServer;
use mudroom::network::event::NetworkEvent;
use mudroom::tui::layout::{inner_height, visible_window};
use mudroom::tui::{App, DiscoveryApp};

fn server(host: &str, port: u16) -> DiscoveredServer {
    DiscoveredServer { host: host.to_string(), port, name: Some(host.to_string()) }
}

#[test]
fn app_starts_with_its_welcome() {
    let app = App::new();
    assert!(!app.should_quit);
    assert_eq!(
        app.messages,
        vec!["Welcome to mudroom.".to_string(), "Type commands and press Enter.".to_string()]
    );
    assert_eq!(app.input, "");
    assert_eq!(app.scroll_offset, 0);
    assert_eq!(App::default().messages.len(), 2);
}

#[test]
fn scrolling_moves_by_one_and_stops_at_the_bottom() {
    let mut app = App::new();
    app.scroll_down();
    assert_eq!(app.scroll_offset, 0);
    app.scroll_up();
    app.scroll_up();
    assert_eq!(app.scroll_offset, 2);
    app.scroll_down();
    assert_eq!(app.scroll_offset, 1);
}

#[test]
fn network_events_are_logged() {
    let mut app = App::new();
    app.handle_network_event(NetworkEvent::StartSession { session_id: "abc".to_string() });
    app.handle_network_event(NetworkEvent::EndSession { session_id: "abc".to_string() });
    app.handle_network_event(NetworkEvent::Ping);
    app.handle_network_event(NetworkEvent::Pong);
    assert_eq!(
        app.messages[2..],
        [
            "Session started: abc".to_string(),
            "Session ended: abc".to_string(),
            "[ping received]".to_string(),
            "[pong received]".to_string(),
        ]
    );
}

#[test]
fn the_window_shows_the_newest_lines() {
    assert_eq!(visible_window(0, 0, 6), (0, 0));
    assert_eq!(visible_window(2, 0, 6), (0, 2));
    assert_eq!(visible_window(6, 0, 6), (0, 6));
    assert_eq!(visible_window(10, 0, 6), (4, 10));
    assert_eq!(visible_window(10, 1, 6), (3, 9));
    assert_eq!(visible_window(10, 4, 6), (0, 6));
    assert_eq!(visible_window(10, 5, 6), (0, 6));
    assert_eq!(visible_window(10, usize::MAX, 6), (0, 6));
    assert_eq!(visible_window(2, 3, 6), (0, 2));
    assert_eq!(visible_window(10, 3, 0), (7, 7));
}

#[test]
fn a_frame_takes_two_rows() {
    assert_eq!(inner_height(8), 6);
    assert_eq!(inner_height(2), 0);
    assert_eq!(inner_height(1), 0);
    assert_eq!(inner_height(0), 0);
}

#[test]
fn discovery_screen_starts_searching() {
    let app = DiscoveryApp::new();
    assert!(app.is_discovering());
    assert!(!app.should_quit());
    assert_eq!(app.cursor(), 0);
    assert_eq!(app.spinner_tick(), 0);
    assert!(app.servers().is_empty());
    assert_eq!(app.into_selected_url(), None);
}

#[test]
fn the_cursor_stays_on_the_list() {
    let mut app = DiscoveryApp::new();
    app.cursor_down();
    assert_eq!(app.cursor(), 0);
    app.cursor_up();
    assert_eq!(app.cursor(), 0);
    app.add_server(server("a", 1));
    app.add_server(server("b", 2));
    app.add_server(server("c", 3));
    app.cursor_down();
    app.cursor_down();
    assert_eq!(app.cursor(), 2);
    app.cursor_down();
    assert_eq!(app.cursor(), 2);
    app.cursor_up();
    assert_eq!(app.cursor(), 1);
}

#[test]
fn select_chooses_the_server_under_the_cursor() {
    let mut app = DiscoveryApp::new();
    app.select();
    assert!(!app.should_quit());
    app.add_server(server("a", 1));
    app.add_server(server("b", 2));
    app.cursor_down();
    app.select();
    assert!(app.should_quit());
    assert_eq!(app.into_selected_url(), Some("http://b:2".to_string()));
}

#[test]
fn quitting_chooses_nothing() {
    let mut app = DiscoveryApp::new();
    app.add_server(server("a", 1));
    app.quit();
    assert!(app.should_quit());
    assert_eq!(app.into_selected_url(), None);
}

#[test]
fn the_spinner_wraps_and_the_search_ends() {
    let mut app = DiscoveryApp::new();
    for _ in 0..255 {
        app.tick();
    }
    assert_eq!(app.spinner_tick(), 255);
    app.tick();
    assert_eq!(app.spinner_tick(), 0);
    app.discovery_finished();
    assert!(!app.is_discovering());
}

#[test]
fn typing_edits_the_input_line() {
    let mut app = App::new();
    app.backspace();
    assert_eq!(app.input, "");
    app.type_char('l');
    app.type_char('o');
    app.type_char('o');
    app.type_char('k');
    app.type_char('s');
    app.backspace();
    assert_eq!(app.input, "look");
}

#[test]
fn enter_moves_the_input_line_into_the_log() {
    let mut app = App::new();
    app.type_char('h');
    app.type_char('i');
    app.scroll_up();
    app.submit();
    assert_eq!(app.input, "");
    assert_eq!(app.scroll_offset, 0);
    assert_eq!(app.messages.len(), 3);
    assert_eq!(app.messages[2], "hi");
    app.submit();
    assert_eq!(app.messages[3], "");
    assert!(!app.should_quit);
    app.quit();
    assert!(app.should_quit);
}

#[test]
fn the_spinner_has_ten_frames() {
    let mut app = DiscoveryApp::new();
    assert_eq!(app.spinner_frame(), 0);
    for _ in 0..13 {
        app.tick();
    }
    assert_eq!(app.spinner_frame(), 3);
    for _ in 0..242 {
        app.tick();
    }
    assert_eq!(app.spinner_tick(), 255);
    assert_eq!(app.spinner_frame(), 5);
    app.tick();
    assert_eq!(app.spinner_frame(), 0);
}
