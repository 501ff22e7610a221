use rand_xoshiro::rand_core::SeedableRng;
use rand_xoshiro::Xoroshiro128StarStar;
use raspi_oled::clock::WallClock;
use raspi_oled::context::ContextDefault;
use raspi_oled::frame::DrawOp;
use raspi_oled::input::Menu;
use raspi_oled::notify::{Notification, PollOutcome, Subject};
use raspi_oled::schedule::{BearReminder, GithubNotifications, Reminder};
use raspi_oled::screen::Drawable;
use raspi_oled::screensaver::{SimpleScreensaver, BITMAP_LEN};

fn blank(id: &str) -> SimpleScreensaver {
	SimpleScreensaver::new(id, vec![0u8; BITMAP_LEN])
}

fn lit(id: &str) -> SimpleScreensaver {
	SimpleScreensaver::new(id, vec![255u8; BITMAP_LEN])
}

/// Tuesday 09:07, a time at which no reminder is due.
fn quiet_time() -> WallClock {
	WallClock::new(1_700_000_000, 9, 7, 1, 2_460_000)
}

fn context(now: &WallClock) -> ContextDefault {
	ContextDefault::new(
		now,
		vec![lit("star"), lit("rpi"), lit("duolingo"), lit("spaghetti"), lit("plate")],
		lit("teddy_bear"),
		lit("github"),
	)
}

fn rng() -> Xoroshiro128StarStar {
	Xoroshiro128StarStar::seed_from_u64(17381)
}

fn notification(reason: &str, unread: bool, title: &str, url: Option<&str>) -> Notification {
	Notification {
		id: "1".to_owned(),
		subject: Subject {
			title: title.to_owned(),
			url: url.map(|u| u.to_owned()),
			latest_comment_url: None,
			kind: "Issue".to_owned(),
		},
		reason: reason.to_owned(),
		unread,
		updated_at: "2024-01-01T00:00:00Z".to_owned(),
	}
}

#[test]
fn idle_ticks_keep_root_and_redraw_once_per_minute() {
	let now = quiet_time();
	let mut ctx = context(&now);
	let mut r = rng();
	let mut ops = vec![];
	assert!(ctx.loop_iter(&now, &mut r, None, &mut ops));
	assert_eq!(ctx.active_count(), 1);
	for _ in 0..20 {
		let mut ops = vec![];
		assert!(!ctx.loop_iter(&now, &mut r, None, &mut ops));
		assert!(ops.is_empty());
		assert_eq!(ctx.active_count(), 1);
	}
	let next = WallClock::new(now.unix_seconds + 30, 9, 8, 1, 2_460_000);
	let mut ops = vec![];
	assert!(ctx.loop_iter(&next, &mut r, None, &mut ops));
	assert_eq!(ctx.active_count(), 1);
	assert_eq!(ops.len(), 4);
}

#[test]
fn clock_face_text_and_colour() {
	let now = quiet_time();
	let mut ctx = context(&now);
	let mut ops = vec![];
	ctx.loop_iter(&now, &mut rng(), None, &mut ops);
	match &ops[1] {
		DrawOp::Text { text, x, y, color, .. } => {
			assert_eq!(text, "09");
			// hour 9: column (9 % 3 - 1) * 40 - 2 = -42; minute 7 moves it down by 11
			assert_eq!((*x, *y), (2, 31));
			assert_eq!((color.r, color.g, color.b), (15, 31, 15));
		},
		other => panic!("unexpected op {:?}", other),
	}
	match &ops[3] {
		DrawOp::Text { text, .. } => assert_eq!(text, "07"),
		other => panic!("unexpected op {:?}", other),
	}
}

#[test]
fn expired_screens_are_popped_in_one_tick() {
	let now = quiet_time();
	let mut ctx = context(&now);
	assert!(ctx.do_action("star"));
	assert!(ctx.do_action("rpi"));
	assert!(ctx.do_action("plate"));
	assert_eq!(ctx.active_count(), 4);
	// expire the two screens on top
	for d in ctx.active.iter_mut().skip(2) {
		if let Drawable::Simple(s) = d {
			s.iters = 1001;
		}
	}
	let mut ops = vec![];
	ctx.pwm_on = true;
	ctx.loop_iter(&now, &mut rng(), None, &mut ops);
	assert_eq!(ctx.active_count(), 2);
	assert!(!ctx.pwm_on);
	match &ctx.active[1] {
		Drawable::Simple(s) => {
			assert_eq!(s.id, "star");
			assert_eq!(s.iters, 1);
		},
		other => panic!("unexpected top {:?}", other),
	}
}

#[test]
fn pop_and_clear_at_root_is_a_no_op() {
	let now = quiet_time();
	let mut ctx = context(&now);
	let mut ops = vec![];
	assert!(!ctx.pop_action_and_clear(&mut ops));
	assert_eq!(ctx.active_count(), 1);
	assert!(ops.is_empty());
}

#[test]
fn pop_and_clear_above_root_clears() {
	let now = quiet_time();
	let mut ctx = context(&now);
	ctx.do_action("star");
	let mut ops = vec![];
	assert!(ctx.pop_action_and_clear(&mut ops));
	assert_eq!(ctx.active_count(), 1);
	assert_eq!(ops.len(), 1);
	assert!(matches!(ops[0], DrawOp::Clear(c) if c.r == 0 && c.g == 0 && c.b == 0));
}

#[test]
fn requesting_known_and_unknown_screens() {
	let now = quiet_time();
	let mut ctx = context(&now);
	let before = ctx.active_count();
	assert!(ctx.do_action("spaghetti"));
	assert_eq!(ctx.active_count(), before + 1);
	assert!(!ctx.do_action("no_such_screen"));
	assert_eq!(ctx.active_count(), before + 1);
}

#[test]
fn requested_screen_starts_fresh() {
	let now = quiet_time();
	let mut ctx = context(&now);
	if let Drawable::Simple(s) = &mut ctx.screensavers[0] {
		s.iters = 500;
	}
	ctx.do_action("star");
	match ctx.active.last().unwrap() {
		Drawable::Simple(s) => assert_eq!(s.iters, 0),
		other => panic!("unexpected top {:?}", other),
	}
}

#[test]
fn menu_paths_drive_the_dashboard() {
	let now = quiet_time();
	let mut ctx = context(&now);
	let mut menu = Menu::new();
	let mut ops = vec![];
	assert_eq!(ctx.active_count(), 1);
	ctx.handle_button(&mut menu, 5, 1000, &mut ops);
	assert_eq!(ctx.active_count(), 2);
	assert_eq!(menu.path, vec![1]);
	ctx.handle_button(&mut menu, 6, 2000, &mut ops);
	assert_eq!(ctx.active_count(), 2);
	assert_eq!(menu.path, vec![1]);
	match ctx.active.last().unwrap() {
		Drawable::Measurements(m) => assert_eq!(m.mode, raspi_oled::drawable::MeasurementsMode::Temps),
		other => panic!("unexpected top {:?}", other),
	}
	assert!(ops.iter().any(|op| matches!(op, DrawOp::Clear(_))));
	let mut r = rng();
	let mut ticks = 0;
	while ctx.active_count() > 1 && ticks < 2000 {
		let mut ops = vec![];
		ctx.loop_iter(&now, &mut r, None, &mut ops);
		ticks += 1;
	}
	assert_eq!(ctx.active_count(), 1);
	assert_eq!(ticks, 1002);
}

#[test]
fn back_button_leaves_overlay_and_silences_buzzer() {
	let now = quiet_time();
	let mut ctx = context(&now);
	let mut menu = Menu::new();
	let mut ops = vec![];
	ctx.handle_button(&mut menu, 19, 0, &mut ops);
	ctx.handle_button(&mut menu, 19, 0, &mut ops);
	// [3] asks for the TOTP screen, which is not in the catalogue; [3, 3] pushes the
	// rpi screensaver and drops the path
	assert!(menu.path.is_empty());
	assert_eq!(ctx.active_count(), 2);
	ctx.enable_pwm();
	let flush = ctx.handle_button(&mut menu, 6, 0, &mut ops);
	assert!(flush);
	assert!(!ctx.pwm_on);
	assert_eq!(ctx.active_count(), 1);
	assert!(menu.path.is_empty());
}

#[test]
fn back_button_at_root_keeps_path() {
	let now = quiet_time();
	let mut ctx = context(&now);
	let mut menu = Menu::new();
	let mut ops = vec![];
	let flush = ctx.handle_button(&mut menu, 6, 0, &mut ops);
	assert!(!flush);
	assert_eq!(menu.path, vec![2]);
	menu.expire(9_999);
	assert_eq!(menu.path, vec![2]);
	menu.expire(10_000);
	assert!(menu.path.is_empty());
}

#[test]
fn buzzer_paths() {
	let now = quiet_time();
	let mut ctx = context(&now);
	let mut menu = Menu::new();
	let mut ops = vec![];
	for offset in [19, 6, 5] {
		ctx.handle_button(&mut menu, offset, 0, &mut ops);
	}
	assert!(ctx.pwm_on);
	assert_eq!(menu.path, vec![3, 2]);
	ctx.handle_button(&mut menu, 19, 0, &mut ops);
	assert!(!ctx.pwm_on);
	assert_eq!(menu.path, vec![3, 2]);
}

#[test]
fn reminder_fires_once_in_its_minute() {
	let lunch = WallClock::new(1_700_000_040, 13, 15, 2, 2_460_001);
	let mut ctx = context(&WallClock::new(1_700_000_000, 13, 14, 2, 2_460_001));
	let mut r = rng();
	let mut ops = vec![];
	ctx.loop_iter(&lunch, &mut r, None, &mut ops);
	assert_eq!(ctx.active_count(), 2);
	match ctx.active.last().unwrap() {
		Drawable::Simple(s) => assert_eq!(s.id, "plate"),
		other => panic!("unexpected top {:?}", other),
	}
	// back at the root within the same minute: no second firing
	let mut ops = vec![];
	ctx.pop_action_and_clear(&mut ops);
	let later = WallClock::new(1_700_000_050, 13, 15, 2, 2_460_001);
	ctx.loop_iter(&later, &mut r, None, &mut ops);
	assert_eq!(ctx.active_count(), 1);
}

#[test]
fn reminder_check_needs_root_only() {
	let r = Reminder::new(11, 40, "duolingo", false);
	let at = WallClock::new(1_700_000_000, 11, 40, 3, 2_460_002);
	assert!(r.check(1, &at));
	assert!(!r.check(2, &at));
	assert!(!r.check(1, &WallClock::new(1_700_000_000, 11, 41, 3, 2_460_002)));
}

#[test]
fn day_scoped_reminder_fires_once_per_day() {
	let mut ctx = context(&WallClock::new(1_700_000_000, 19, 59, 0, 2_460_003));
	let first = WallClock::new(1_700_000_100, 20, 0, 0, 2_460_003);
	let second = WallClock::new(1_700_000_110, 20, 0, 0, 2_460_003);
	let mut r = rng();
	let mut ops = vec![];
	ctx.loop_iter(&first, &mut r, None, &mut ops);
	let after_first = ctx.active_count();
	ctx.loop_iter(&second, &mut r, None, &mut ops);
	assert_eq!(after_first, 2);
	assert_eq!(ctx.active_count(), 2);
	assert!(matches!(ctx.active.last().unwrap(), Drawable::Bear(_)));
}

#[test]
fn day_scoped_reminder_skips_other_days() {
	let b = BearReminder::new(lit("teddy_bear"));
	assert!(b.check(&WallClock::new(0, 20, 30, 2, 10)));
	assert!(!b.check(&WallClock::new(0, 20, 30, 1, 10)));
	assert!(!b.check(&WallClock::new(0, 20, 31, 2, 10)));
}

#[test]
fn notification_poll_pushes_alert_that_runs_its_course() {
	let now = quiet_time();
	let mut poll = GithubNotifications::new(now.unix_seconds - 61, lit("github"));
	assert!(poll.check(&now));
	let outcome = PollOutcome {
		notifications: vec![
			notification(
				"mention",
				true,
				"Crash on start",
				Some("https://api.github.com/repos/owner/widget/issues/12"),
			),
			notification("subscribed", true, "Typo", Some("https://api.github.com/repos/owner/gadget/pulls/7")),
		],
		last_modified: Some("Mon, 01 Jan 2024 00:00:05 GMT".to_owned()),
	};
	let mut alert = poll.execute(&now, Some(outcome)).expect("two unread items give an alert");
	assert_eq!(poll.last_call, now.unix_seconds);
	assert!(!poll.check(&now));
	assert_eq!(alert.lines, vec!["widget #12", "Crash on start", "gadget #7", "Typo"]);
	let mut r = rng();
	let mut frames = 0;
	while !alert.expired() {
		let mut ops = vec![];
		let changed = alert.draw(&mut r, &mut ops);
		assert_eq!(changed, frames < 120);
		frames += 1;
	}
	assert!(frames >= 70);
	assert_eq!(frames, 141);
}

#[test]
fn notification_poll_through_the_context() {
	let now = quiet_time();
	let mut ctx = context(&now);
	let later = WallClock::new(now.unix_seconds + 11, 9, 7, 1, 2_460_000);
	assert!(ctx.poll_due(&later));
	let outcome = PollOutcome {
		notifications: vec![notification("mention", true, "Hi", None)],
		last_modified: None,
	};
	let mut ops = vec![];
	ctx.loop_iter(&later, &mut rng(), Some(outcome), &mut ops);
	assert_eq!(ctx.active_count(), 2);
	assert!(!ctx.poll_due(&later));
}

#[test]
fn failed_poll_is_skipped() {
	let now = quiet_time();
	let mut poll = GithubNotifications::new(now.unix_seconds - 120, lit("github"));
	assert!(poll.execute(&now, None).is_none());
	assert_eq!(poll.last_call, now.unix_seconds);
}

#[test]
fn temperature_dashboard_charts_history() {
	let now = quiet_time();
	let mut ctx = context(&now);
	ctx.sensors.reading = Some(raspi_oled::drawable::Reading { humidity: 471, celsius: 268 });
	ctx.sensors.temps = vec![200, 210, 190, 205, 230, 180, 300, 310, 290, 305, 330, 280];
	ctx.do_action("measurements_temps");
	let mut ops = vec![];
	assert!(ctx.loop_iter(&now, &mut rng(), None, &mut ops));
	// header 5, reading 5, degree sign 15, axis 3, weekdays 10, the present marked in the
	// calendar grid, two bars, two labels
	assert_eq!(ops.len(), 5 + 5 + 15 + 3 + 10 + 1 + 2 + 2);
	assert!(matches!(ops[38], DrawOp::Rect { x: 5, y: 17, w: 1, h: 1, .. }));
	match &ops[5] {
		DrawOp::Text { text, .. } => assert_eq!(text, "47"),
		other => panic!("unexpected {:?}", other),
	}
	match &ops[28] {
		DrawOp::Text { text, .. } => assert_eq!(text, "D"),
		other => panic!("unexpected {:?}", other),
	}
	let mut ops = vec![];
	assert!(!ctx.loop_iter(&now, &mut rng(), None, &mut ops));
}

#[test]
fn blank_screensaver_draws_nothing_but_counts() {
	let mut s = blank("void");
	let mut ops = vec![];
	assert!(s.draw(&mut rng(), 32, &mut ops));
	assert!(ops.is_empty());
	assert_eq!(s.iters, 1);
}

#[test]
fn menu_path_never_exceeds_three_presses() {
	let now = quiet_time();
	let mut ctx = context(&now);
	let mut menu = Menu::new();
	let mut ops = vec![];
	// back at the root does nothing and keeps [2]
	ctx.handle_button(&mut menu, 6, 0, &mut ops);
	assert_eq!(menu.path, vec![2]);
	ctx.handle_button(&mut menu, 5, 0, &mut ops);
	ctx.handle_button(&mut menu, 5, 0, &mut ops);
	assert_eq!(menu.path, vec![2, 1, 1]);
	// a fourth press starts a new path: [1] shows the dashboard
	ctx.handle_button(&mut menu, 5, 0, &mut ops);
	assert_eq!(menu.path, vec![1]);
	assert_eq!(ctx.active_count(), 2);
}

#[test]
fn tick_on_empty_stack_draws_nothing() {
	let now = quiet_time();
	let mut ctx = context(&now);
	ctx.active.clear();
	let mut ops = vec![];
	assert!(!ctx.loop_iter(&now, &mut rng(), None, &mut ops));
	assert_eq!(ctx.active_count(), 0);
	assert!(ops.is_empty());
}

#[test]
fn sparkle_frame_follows_the_words() {
	let s = lit("star");
	let mut ops = vec![];
	s.sparkle_frame(&vec![(10, 20, 4, 4, 0), (0, 0, 0, 0, 0)], &mut ops);
	assert_eq!(ops.len(), 2);
	assert!(matches!(ops[0], DrawOp::Pixel { x: 10, y: 20, .. }));
	let mut ops = vec![];
	let mut l = lit("star");
	l.draw(&mut rng(), 32, &mut ops);
	assert_eq!(ops.len(), 32);
}
