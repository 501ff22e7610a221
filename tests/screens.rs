use raspi_oled::frame::{Color565, DrawOp};
use raspi_oled::notify::{alert_lines, url_line_of, Notification, Subject};
use raspi_oled::screensaver::{SimpleScreensaver, BITMAP_LEN, PIXELS};
use raspi_oled::text::decimal_string;
use raspi_oled::totp::{account_name_of, Totp, TotpAccount};
use raspi_oled::ui::{Ui, UiCommand, UiResult};

fn notification(reason: &str, unread: bool, title: &str, url: Option<&str>) -> Notification {
	Notification {
		id: "1".to_owned(),
		subject: Subject {
			title: title.to_owned(),
			url: url.map(|u| u.to_owned()),
			latest_comment_url: None,
			kind: "Issue".to_owned(),
		},
		reason: reason.to_owned(),
		unread,
		updated_at: "2024-01-01T00:00:00Z".to_owned(),
	}
}

#[test]
fn decimal_strings() {
	assert_eq!(decimal_string(0), "0");
	assert_eq!(decimal_string(1205), "1205");
}

#[test]
fn url_lines() {
	assert_eq!(url_line_of(&None), "no url");
	assert_eq!(url_line_of(&Some("https://example.com/a".to_owned())), "too few url parts");
	assert_eq!(
		url_line_of(&Some("https://api.github.com/repos/me/tool/issues/3".to_owned())),
		"tool #3"
	);
}

#[test]
fn alert_lines_skip_state_changes_and_read_items() {
	let ns = vec![
		notification("state_change", true, "a", None),
		notification("mention", false, "b", None),
	];
	assert!(alert_lines(&ns).is_none());
}

#[test]
fn alert_lines_summarise_overflow() {
	let url = "https://api.github.com/repos/me/tool/issues/3";
	let ns: Vec<Notification> = (0..6).map(|i| notification("mention", true, &format!("t{}", i), Some(url))).collect();
	let lines = alert_lines(&ns).unwrap();
	assert_eq!(lines.len(), 9);
	assert_eq!(lines[0], "tool #3");
	assert_eq!(lines[7], "t3");
	assert_eq!(lines[8], "... 2 more");
}

#[test]
fn alert_lines_without_url_take_one_line() {
	let ns = vec![notification("mention", true, "x", None), notification("mention", true, "y", None)];
	assert_eq!(alert_lines(&ns).unwrap(), vec!["no url", "no url"]);
}

#[test]
fn screensaver_pixels() {
	let mut data = vec![0u8; BITMAP_LEN];
	data[3 * (2 * 128 + 5)] = 255;
	data[3 * (2 * 128 + 5) + 1] = 128;
	data[3 * (2 * 128 + 5) + 2] = 9;
	let s = SimpleScreensaver::new("x", data);
	let c = s.get_pixel(5, 2);
	assert_eq!((c.r, c.g, c.b), (31, 32, 1));
	let all = s.draw_all(false);
	assert_eq!(all.len(), PIXELS);
	assert_eq!(all[2 * 128 + 5], c);
	let flipped = s.draw_all(true);
	assert_eq!(flipped[0], Color565::white());
	assert_eq!(flipped[2 * 128 + 5], Color565 { r: 0, g: 31, b: 30 });
	let white = Color565::white();
	let colored = s.draw_all_colored(white);
	assert_eq!(colored[2 * 128 + 5], white);
	assert_eq!(colored[0], Color565::black());
}

#[test]
fn sparkle_step_jitters_pixel() {
	let s = SimpleScreensaver::new("x", vec![200u8; BITMAP_LEN]);
	// x = 10, y = 20, dx = 7 - 4, dy = 0 - 4, colour bits 3, 1, 2
	match s.sparkle(138, 20, 7, 8, 3 + 4 + 32) {
		Some(DrawOp::Pixel { x, y, color }) => {
			assert_eq!((x, y), (13, 16));
			assert_eq!((color.r, color.g, color.b), (28, 51, 27));
		},
		other => panic!("unexpected {:?}", other),
	}
	let dark = SimpleScreensaver::new("y", vec![0u8; BITMAP_LEN]);
	assert!(dark.sparkle(1, 2, 3, 4, 5).is_none());
}

#[test]
fn account_names() {
	assert_eq!(account_name_of(&"GitHub".to_owned(), &"me".to_owned()), "GitHub");
	assert_eq!(account_name_of(&"".to_owned(), &"Bank - savings".to_owned()), "Bank");
	assert_eq!(account_name_of(&"".to_owned(), &"averylonglabel".to_owned()), "averylo");
}

#[test]
fn totp_pages_wrap() {
	let accounts = (0..7)
		.map(|i| TotpAccount { issuer: format!("i{}", i), label: String::new() })
		.collect();
	let mut t = Totp::new(accounts);
	t.next_page();
	assert_eq!(t.page, 1);
	t.next_page();
	assert_eq!(t.page, 0);
}

#[test]
fn totp_repaints_only_when_codes_change() {
	let accounts = vec![TotpAccount { issuer: "A".to_owned(), label: String::new() }];
	let mut t = Totp::new(accounts);
	let codes = vec!["123456".to_owned()];
	let mut ops = vec![];
	assert!(t.draw(&codes, &mut ops));
	assert_eq!(ops.len(), 3);
	let mut ops = vec![];
	assert!(!t.draw(&codes, &mut ops));
	assert!(ops.is_empty());
	assert!(t.draw(&vec!["654321".to_owned()], &mut ops));
}

#[test]
fn exit_dialog() {
	let mut ui = Ui::new("exit");
	let (res, cmd) = ui.handle(1);
	assert_eq!(res, UiResult::Replace("exit_confirmed".to_owned()));
	assert_eq!(cmd, UiCommand::Shutdown);
	let mut ui = Ui::new("exit");
	assert_eq!(ui.handle(2).0, UiResult::Close);
	let mut ui = Ui::new("exit_confirmed");
	assert_eq!(ui.handle(1).0, UiResult::Ignore);
}

#[test]
fn volume_dialog() {
	let mut ui = Ui::new_aux1("volume", 40);
	assert!(!ui.should_close());
	let mut ops = vec![];
	assert!(ui.draw(&mut ops));
	match &ops[1] {
		DrawOp::Text { text, .. } => assert_eq!(text, "Volume\n         40%"),
		other => panic!("unexpected {:?}", other),
	}
	assert!(ui.should_close());
	assert!(!ui.draw(&mut vec![]));
	let (res, cmd) = ui.handle(3);
	assert_eq!(res, UiResult::Replace("volume".to_owned()));
	assert_eq!(cmd, UiCommand::VolumeUp);
	assert_eq!(ui.handle(5).1, UiCommand::VolumeDown);
	assert_eq!(ui.handle(0).0, UiResult::Close);
}

#[test]
fn folder_picker() {
	let folders: Vec<String> = vec!["a".into(), "b".into(), "c".into()];
	let mut ui = Ui::new_aux2("select", folders);
	assert_eq!(ui.handle(2).0, UiResult::Ignore);
	assert_eq!(ui.aux3, 2);
	assert_eq!(ui.handle(4).0, UiResult::Ignore);
	assert_eq!(ui.aux3, 0);
	ui.handle(4);
	assert_eq!(ui.handle(0).0, UiResult::Play("b".to_owned()));
	let mut ops = vec![];
	assert!(ui.draw(&mut ops));
	assert_eq!(ops.len(), 4);
	match &ops[2] {
		DrawOp::Text { color, .. } => assert_eq!(*color, Color565 { r: 31, g: 0, b: 0 }),
		other => panic!("unexpected {:?}", other),
	}
	assert!(ui.draw(&mut vec![]));
}

#[test]
fn picker_scrolls_long_names() {
	assert_eq!(Ui::picker_name_of(&"short".to_owned(), 5), "short");
	let name = "abcdefghijklmn".to_owned();
	assert_eq!(Ui::picker_name_of(&name, 0), "            ");
	assert_eq!(Ui::picker_name_of(&name, 12), "abcdefghijkl");
}

#[test]
fn empty_picker_closes() {
	let mut ui = Ui::new_aux2("select", vec![]);
	assert_eq!(ui.handle(0).0, UiResult::Close);
}

use raspi_oled::dashboard::{hourly_ranges, temperature_chart, tenths_string};

#[test]
fn hourly_ranges_use_second_extremes() {
	let temps = vec![200, 210, 190, 205, 230, 180, 300, 310, 290, 305, 330, 280, 100];
	// the last hour holds a single reading and gives no range
	assert_eq!(hourly_ranges(&temps), vec![(190, 210), (290, 310)]);
}

#[test]
fn hourly_ranges_replace_faulty_maximum() {
	let temps = vec![200, 210, 190, 205, 230, 180, 300, 999, 290, 998, 330, 280];
	assert_eq!(hourly_ranges(&temps), vec![(190, 210), (210, 210)]);
	let first_faulty = vec![500, 600, 700, 800, 900, 950];
	assert_eq!(hourly_ranges(&first_faulty), vec![(600, 600)]);
}

#[test]
fn tenths_text() {
	assert_eq!(tenths_string(215), "21.5");
	assert_eq!(tenths_string(200), "20");
	assert_eq!(tenths_string(-5), "-0.5");
}

#[test]
fn chart_scales_bars() {
	let mut ops = vec![];
	temperature_chart(&vec![(200, 263), (137, 200)], &mut ops);
	assert_eq!(ops.len(), 4);
	// oldest first: (137, 200) spans rows 64 + 63 * 63 / 126 = 95 to 127
	match &ops[0] {
		DrawOp::Rect { x, y, w, h, .. } => assert_eq!((*x, *y, *w, *h), (0, 95, 2, 33)),
		other => panic!("unexpected {:?}", other),
	}
	match &ops[2] {
		DrawOp::Text { text, .. } => assert_eq!(text, "26.3"),
		other => panic!("unexpected {:?}", other),
	}
}

use raspi_oled::calendar::{agenda_order, time_until_first, until_string, weekly_appointment, Appointment};
use raspi_oled::clock::WallClock;
use raspi_oled::drawable::Weekly;

fn appointment(weekday: i32, hour: i32, minute: i32, julian_day: i32) -> Appointment {
	Appointment { weekday, hour, minute, duration: 30, name: "x".to_owned(), julian_day, day: 1, month: 2 }
}

#[test]
fn weekly_event_lands_on_next_matching_day() {
	// Friday, Julian day 100
	let now = WallClock::new(0, 10, 0, 4, 100);
	let w = Weekly { name: "sport".to_owned(), day: 1, hour: 18, minute: 0, duration: 60 };
	let a = weekly_appointment(&w, &now).unwrap();
	assert_eq!(a.julian_day, 104);
	let bad = Weekly { name: "?".to_owned(), day: 7, hour: 18, minute: 0, duration: 60 };
	assert!(weekly_appointment(&bad, &now).is_none());
}

#[test]
fn agenda_sorted_by_date_then_time() {
	let list = vec![appointment(1, 9, 0, 105), appointment(4, 18, 0, 100), appointment(4, 8, 30, 100)];
	assert_eq!(agenda_order(&list, 4), vec![2, 1, 0]);
}

#[test]
fn countdown_to_next_appointment() {
	let now = WallClock::new(0, 10, 0, 4, 100);
	let list = vec![appointment(4, 8, 0, 100), appointment(4, 12, 45, 100)];
	let order = agenda_order(&list, 4);
	let secs = time_until_first(&list, &order, &now).unwrap();
	assert_eq!(secs, (2 * 60 + 45) * 60);
	assert_eq!(until_string(secs), "2h45m");
	assert_eq!(until_string(25 * 60), "25m");
	assert_eq!(until_string(86400), "");
	assert_eq!(until_string(30), "?");
}

use raspi_oled::player::{MpvStatus, TrackInfo};

fn track(artist: Option<&str>, title: Option<&str>) -> TrackInfo {
	TrackInfo {
		artist: artist.map(|s| s.to_owned()),
		title: title.map(|s| s.to_owned()),
		art_url: None,
		length_us: Some(185_000_000),
	}
}

#[test]
fn player_refresh_schedule() {
	let mut p = MpvStatus::new(0);
	assert!(p.refresh_due(0));
	p.update(100, Some(track(Some("Band"), Some("Song"))), Some(61_000_000));
	assert!(p.active());
	assert!(p.metadata_changed);
	assert!(!p.refresh_due(11_099));
	assert!(p.refresh_due(11_100));
	p.update(11_100, Some(track(Some("Band"), Some("Song"))), Some(61_000_000));
	assert!(!p.metadata_changed);
	assert!(!p.position_changed);
	p.re_request();
	assert!(p.refresh_due(11_101));
}

#[test]
fn player_status_lines() {
	let mut p = MpvStatus::new(0);
	p.update(0, Some(track(None, Some("Band - A very long song title"))), Some(61_000_000));
	let mut ops = vec![];
	assert!(p.draw(0, None, &mut ops));
	let texts: Vec<String> = ops
		.iter()
		.filter_map(|op| match op {
			DrawOp::Text { text, .. } => Some(text.clone()),
			_ => None,
		})
		.collect();
	assert_eq!(texts, vec!["Band", "            ", "1:01", "3:05"]);
}

#[test]
fn player_idle_draws_nothing() {
	let mut p = MpvStatus::new(0);
	let mut ops = vec![];
	assert!(!p.draw(5, None, &mut ops));
	assert!(ops.is_empty());
}

use raspi_oled::relay::{relay_due, relay_message};

#[test]
fn relay_lists_unread_including_state_changes() {
	let ns = vec![
		notification("state_change", true, "t", None),
		notification("mention", false, "u", None),
	];
	assert_eq!(relay_message(&ns).unwrap(), "GITHUB 1\nno url\n");
	assert!(alert_lines(&ns).is_none());
	assert!(relay_message(&vec![notification("mention", false, "u", None)]).is_none());
}

#[test]
fn relay_polls_once_a_minute() {
	assert!(!relay_due(1000, 60_999));
	assert!(relay_due(1000, 61_000));
}

use raspi_oled::status::{parse_status, reading_recent, status_squares, status_string, statuses, traffic_good, Status};

#[test]
fn status_file_round_trip() {
	let flags = vec![true, false, true, true, false];
	let text = status_string(&flags);
	assert_eq!(text, "true false true true false");
	assert_eq!(parse_status(&text), Some(flags));
	assert_eq!(parse_status("true maybe"), None);
}

#[test]
fn status_squares_from_checks() {
	assert_eq!(statuses(Some(vec![true, true, false, false, true])), vec![Status::Good, Status::Down, Status::Bad]);
	assert_eq!(statuses(None), vec![Status::Unknown; 3]);
	let mut ops = vec![];
	status_squares(&statuses(Some(vec![true, true, true, true, true])), &mut ops);
	assert_eq!(ops.len(), 3);
	assert!(matches!(ops[2], DrawOp::Rect { x: 117, y: 125, w: 3, h: 3, color } if color == Status::Good.color()));
}

#[test]
fn health_checks() {
	assert!(reading_recent(1000, 280));
	assert!(!reading_recent(1000, 279));
	assert!(traffic_good(6 * 450_000_000));
	assert!(!traffic_good(6 * 450_000_000 - 1));
}

#[test]
fn calendar_file_layout() {
	assert_eq!(
		raspi_oled::calendar::events_document_of("[]", r#""weekly": []"#),
		r#"{"events": [],"weekly": []}"#
	);
}

#[test]
fn empty_picker_moves_stay_put() {
	let mut ui = Ui::new_aux2("select", vec![]);
	assert_eq!(ui.handle(2).0, UiResult::Ignore);
	assert_eq!(ui.aux3, 0);
	assert_eq!(ui.handle(4).0, UiResult::Ignore);
	assert_eq!(ui.aux3, 0);
}
