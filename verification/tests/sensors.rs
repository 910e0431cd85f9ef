use r3bar::error::BarError;
use r3bar::message::Message;
use r3bar::number::Number;
use r3bar::r3ipc::CommandOutcome;
use r3bar::sensors::battery::{read_info_file, Battery, AC_PATH, CAPACITY_PATH, STATUS_PATH};
use r3bar::sensors::diskusage::{extract_mounts, get_usage, DiskUsage};
use r3bar::sensors::i3workspace::{I3Action, I3Event, I3Workspace};
use r3bar::sensors::systime::SysTime;
use r3bar::sensors::volume::{get_volume, Volume};
use r3bar::sensors::wifi::{
    next_peak, next_status, same_network, ConfigureWifi, LinkReport, WifiStatus,
};
use r3bar::sensors::{output_text, Output, PollDecision, PollEvent, PollPhase, Poller};
use std::time::Duration;

fn num(x: f64) -> Number {
    Number::from_bits(x.to_bits())
}

fn ok(stdout: &str) -> Output {
    Output { success: true, stdout: stdout.as_bytes().to_vec(), stderr: Vec::new() }
}

fn failed(stderr: &str) -> Output {
    Output { success: false, stdout: b"ignored".to_vec(), stderr: stderr.as_bytes().to_vec() }
}

fn nothing() -> PollDecision {
    PollDecision { send: None, report: None, failure: None }
}

const DF: &str = "Filesystem      Size  Used Avail Use% Mounted on
udev            7.8G     0  7.8G   0% /dev
/dev/nvme0n1p2  234G  101G  122G  46% /
tmpfs           7.8G   95M  7.7G   2% /dev/shm
/dev/nvme0n1p3  700G  512G  153G  78% /home
/dev/sdb1       1.8T  1.1T  640G  64% /mnt/backup disk
";

const IW_LINK: &str = "Connected to 00:11:22:33:44:55 (on wlp3s0)
\tSSID: home network
\tfreq: 5180
\tRX: 1234567 bytes (8910 packets)
\tsignal: -52 dBm
\ttx bitrate: 866.7 MBit/s VHT-MCS 9 80MHz short GI VHT-NSS 2
";

#[test]
fn output_text_gives_stdout_of_a_command_that_ended_well() {
    assert_eq!(output_text(&ok(" 42\n"), "label: "), Ok(" 42\n".to_string()));
    assert_eq!(output_text(&ok(""), "label: "), Ok(String::new()));
}

#[test]
fn output_text_gives_stderr_of_a_command_that_failed() {
    assert_eq!(
        output_text(&failed("no such device\n"), "'vol get' ERROR: "),
        Err(BarError::Bar("'vol get' ERROR: no such device\n".to_string()))
    );
}

#[test]
fn output_text_refuses_output_that_is_not_utf8() {
    let bad = Output { success: true, stdout: vec![b'4', 0xff, b'2'], stderr: Vec::new() };
    assert_eq!(
        output_text(&bad, "x"),
        Err(BarError::Utf8("invalid utf-8 sequence of 1 bytes from index 1".to_string()))
    );
    let bad = Output { success: false, stdout: b"fine".to_vec(), stderr: vec![0xc3] };
    assert_eq!(
        output_text(&bad, "x"),
        Err(BarError::Utf8("incomplete utf-8 byte sequence from index 0".to_string()))
    );
}

#[test]
fn volume_is_the_trimmed_output() {
    assert_eq!(get_volume(&ok("42\n")), Ok("42".to_string()));
    assert_eq!(get_volume(&ok("  7 \t\n")), Ok("7".to_string()));
    assert_eq!(get_volume(&ok("")), Ok(String::new()));
    assert_eq!(
        get_volume(&failed("boom")),
        Err(BarError::Bar("'vol get' ERROR: boom".to_string()))
    );
}

#[test]
fn disk_usage_picks_the_lines_of_the_mounts() {
    let mounts = vec!["/".to_string(), "/home".to_string()];
    assert_eq!(extract_mounts(DF, &mounts), "/ 46%  /home 78%");
    let mounts = vec!["/home".to_string(), "/".to_string()];
    assert_eq!(extract_mounts(DF, &mounts), "/home 78%  / 46%");
    assert_eq!(extract_mounts(DF, &vec!["/dev/shm".to_string()]), "/dev/shm 2%");
}

#[test]
fn disk_usage_of_unknown_mounts_is_empty() {
    assert_eq!(extract_mounts(DF, &vec!["/nowhere".to_string()]), "");
    assert_eq!(extract_mounts(DF, &vec![]), "");
    assert_eq!(extract_mounts("", &vec!["/".to_string()]), "");
    assert_eq!(extract_mounts("a b c d e", &vec!["e".to_string()]), "");
}

#[test]
fn disk_usage_reads_the_sixth_column_only() {
    assert_eq!(extract_mounts(DF, &vec!["/mnt/backup".to_string()]), "/mnt/backup 64%");
    assert_eq!(extract_mounts(DF, &vec!["on".to_string()]), "");
    assert_eq!(extract_mounts(DF, &vec!["Mounted".to_string()]), "Mounted Use%");
    let twice = "d 1 2 3 10% /x\nd 1 2 3 20% /x\n";
    assert_eq!(extract_mounts(twice, &vec!["/x".to_string()]), "/x 10%  /x 20%");
    let mounts = vec!["/x".to_string(), "/x".to_string()];
    assert_eq!(extract_mounts(twice, &mounts), "/x 10%  /x 20%  /x 10%  /x 20%");
}

#[test]
fn disk_usage_is_trimmed_after_joining() {
    let odd = "d 1 2 3 \u{a0} \u{a0}\n";
    assert_eq!(extract_mounts(odd, &vec!["\u{a0}".to_string()]), "");
    let odd = "d 1 2 3 4 5\n";
    assert_eq!(extract_mounts(odd, &vec!["5".to_string()]), "5 4");
}

#[test]
fn get_usage_checks_how_df_ended() {
    let mounts = vec!["/".to_string()];
    assert_eq!(get_usage(&mounts, &ok(DF)), Ok("/ 46%".to_string()));
    assert_eq!(
        get_usage(&mounts, &failed("df: not found")),
        Err(BarError::Bar("'DiskUsage df' ERROR: df: not found".to_string()))
    );
}

#[test]
fn probes_keep_their_settings() {
    let interval = Duration::from_millis(5000);
    assert_eq!(Battery::new(interval).interval, interval);
    assert_eq!(Volume::new(interval).interval, interval);
    assert_eq!(SysTime::new(interval).interval, interval);
    let mounts = vec!["/".to_string(), "/home".to_string()];
    let probe = DiskUsage::new(interval, mounts.clone());
    assert_eq!(probe.interval, interval);
    assert_eq!(probe.mountpoints, mounts);
    let _ = I3Workspace::new();
}

#[test]
fn battery_files_are_read_by_their_first_line() {
    assert_eq!(read_info_file("87\n"), "87");
    assert_eq!(read_info_file("Discharging\n"), "Discharging");
    assert_eq!(read_info_file("  1  \nsecond line\n"), "1");
    assert_eq!(read_info_file(""), "");
    assert_eq!(read_info_file("\nsecond"), "");
    assert_eq!(read_info_file("Not charging"), "Not charging");
    assert_eq!(CAPACITY_PATH, "/sys/class/power_supply/BAT1/capacity");
    assert_eq!(AC_PATH, "/sys/class/power_supply/AC/online");
    assert_eq!(STATUS_PATH, "/sys/class/power_supply/BAT1/status");
}

#[test]
fn battery_reading_is_one_message() {
    assert_eq!(
        Battery::reading("87\n", "Discharging\n", "0\n"),
        Message::Battery(("87".to_string(), "Discharging".to_string(), "0".to_string()))
    );
}

#[test]
fn time_reading_is_written_as_date_and_time() {
    let probe = SysTime::new(Duration::from_millis(100));
    let time = |text: &str| Ok(Message::Time(text.to_string()));
    assert_eq!(probe.reading(0, 0), time("1970-01-01 00:00:00"));
    assert_eq!(probe.reading(1491137432, 0), time("2017-04-02 12:50:32"));
    assert_eq!(probe.reading(1491137432, 7200), time("2017-04-02 14:50:32"));
    assert_eq!(probe.reading(1491137432, -12 * 3600), time("2017-04-02 00:50:32"));
    assert_eq!(probe.reading(-1, 0), time("1969-12-31 23:59:59"));
    assert_eq!(probe.reading(951782400, 3600), time("2000-02-29 01:00:00"));
    assert_eq!(probe.reading(253402300800, 0), time("+10000-01-01 00:00:00"));
    assert_eq!(probe.reading(-62135596801, 0), time("0000-12-31 23:59:59"));
}

#[test]
fn time_reading_out_of_range_is_an_error() {
    let probe = SysTime::new(Duration::from_millis(100));
    let refused = Err(BarError::Bar("clock out of range".to_string()));
    assert_eq!(probe.reading(0, 86_400), refused);
    assert_eq!(probe.reading(0, -86_400), refused);
    assert_eq!(probe.reading(i64::MAX, 0), refused);
    assert_eq!(probe.reading(i64::MIN, 0), refused);
    assert!(probe.reading(0, 86_399).is_ok());
}

#[test]
fn each_probe_has_its_rhythm() {
    let interval = Duration::from_millis(700);
    let check = |poller: Poller, fail_fast: bool, label: &str| {
        assert_eq!(poller.phase, PollPhase::Registering);
        assert_eq!(poller.interval, interval);
        assert_eq!(poller.fail_fast, fail_fast);
        assert_eq!(poller.label, label);
    };
    check(SysTime::new(interval).poller(), false, "SysTime ERROR: ");
    check(Battery::new(interval).poller(), true, "Battery Sensor Error: ");
    check(Volume::new(interval).poller(), true, "volume sensor ERROR: ");
    check(DiskUsage::new(interval, vec![]).poller(), true, "volume sensor ERROR: ");
    let mut config = ConfigureWifi::new(&ok("Interface wlp3s0"), Duration::from_secs(5)).unwrap();
    check(config.interval(interval).configure().poller(), false, "wifistatus ERROR: ");
}

#[test]
fn volume_and_disk_usage_readings_are_messages() {
    let interval = Duration::from_millis(700);
    assert_eq!(
        Volume::new(interval).reading(&ok(" 42\n")),
        Ok(Message::Volume("42".to_string()))
    );
    assert_eq!(
        Volume::new(interval).reading(&failed("boom")),
        Err(BarError::Bar("'vol get' ERROR: boom".to_string()))
    );
    let probe = DiskUsage::new(interval, vec!["/".to_string(), "/home".to_string()]);
    assert_eq!(probe.reading(&ok(DF)), Ok(Message::DiskUsage("/ 46%  /home 78%".to_string())));
    assert_eq!(
        probe.reading(&failed("df: not found")),
        Err(BarError::Bar("'DiskUsage df' ERROR: df: not found".to_string()))
    );
}

#[test]
fn window_manager_events_become_actions() {
    assert_eq!(I3Workspace::on_event(I3Event::Workspace), I3Action::Refresh);
    assert_eq!(I3Workspace::on_event(I3Event::Window), I3Action::Refresh);
    assert_eq!(
        I3Workspace::on_event(I3Event::Mode("resize".to_string())),
        I3Action::Send(Message::I3Mode("resize".to_string()))
    );
    assert_eq!(
        I3Workspace::on_event(I3Event::Other),
        I3Action::Skip("bad things from i3workspace".to_string())
    );
}

#[test]
fn change_workspace_command_names_workspace_and_output() {
    assert_eq!(
        I3Workspace::change_workspace_command("3", "eDP1"),
        "workspace 3, move workspace to eDP1"
    );
    assert_eq!(
        I3Workspace::change_workspace_command("", ""),
        "workspace , move workspace to "
    );
}

#[test]
fn change_workspace_result_is_the_first_failure() {
    let good = || CommandOutcome { success: true, error: None };
    let bad = |why: &str| CommandOutcome { success: false, error: Some(why.to_string()) };
    assert_eq!(I3Workspace::change_workspace_result(vec![]), Ok(()));
    assert_eq!(I3Workspace::change_workspace_result(vec![good(), good()]), Ok(()));
    assert_eq!(
        I3Workspace::change_workspace_result(vec![good(), bad("first"), bad("second")]),
        Err(BarError::Bar("first".to_string()))
    );
    assert_eq!(
        I3Workspace::change_workspace_result(vec![
            good(),
            CommandOutcome { success: false, error: None },
            bad("later")
        ]),
        Err(BarError::Bar("Couldn't switch workspace unknown reason".to_string()))
    );
    let odd = CommandOutcome { success: true, error: Some("ignored".to_string()) };
    assert_eq!(I3Workspace::change_workspace_result(vec![odd]), Ok(()));
}

#[test]
fn link_report_finds_each_part() {
    let report = LinkReport::read(IW_LINK, false);
    assert_eq!(
        report,
        LinkReport {
            bitrate: Some("866.7".to_string()),
            unit: Some("MBit/s".to_string()),
            signal: Some("-52".to_string()),
            ssid: Some("home network".to_string()),
            ip: None,
        }
    );
    assert!(!report.gigabit());
}

#[test]
fn link_report_of_a_link_that_is_down_is_empty() {
    let report = LinkReport::read("Not connected.\n", true);
    assert_eq!(
        report,
        LinkReport { bitrate: None, unit: None, signal: None, ssid: None, ip: None }
    );
    assert!(!report.gigabit());
}

#[test]
fn link_report_looks_for_the_address_only_when_asked() {
    let text = "SSID: x\n    inet  192.168.1.17/24 brd 192.168.1.255\n";
    assert_eq!(LinkReport::read(text, false).ip, None);
    assert_eq!(LinkReport::read(text, true).ip, Some("192.168.1.17".to_string()));
    assert_eq!(LinkReport::read(IW_LINK, true).ip, None);
}

#[test]
fn link_report_knows_gigabits() {
    let report = LinkReport::read("tx bitrate: 1.2 Gbit/s\n", false);
    assert_eq!(report.bitrate, Some("1.2".to_string()));
    assert_eq!(report.unit, Some("Gbit/s".to_string()));
    assert!(report.gigabit());
}

#[test]
fn wifi_settings_find_the_interface() {
    let interval = Duration::from_millis(5000);
    let listing = "phy#0\n\tInterface wlp3s0\n\t\tifindex 3\n\tInterface wlan9\n";
    let config = ConfigureWifi::new(&ok(listing), interval).unwrap();
    assert_eq!(config.device, "wlp3s0");
    assert_eq!(config.bitrate_degraded, num(53.0));
    assert_eq!(config.interval, interval);
    assert!(!config.ip);
    assert_eq!(ConfigureWifi::new(&ok("phy#0\n"), interval).unwrap().device, "wlan0");
    assert_eq!(ConfigureWifi::new(&ok(""), interval).unwrap().device, "wlan0");
    assert_eq!(
        ConfigureWifi::new(&failed("nl80211 not found.\n"), interval).unwrap_err(),
        BarError::Bar("iw dev error: nl80211 not found.\n".to_string())
    );
}

#[test]
fn wifi_settings_can_be_changed_before_the_probe_is_made() {
    let mut config = ConfigureWifi::new(&ok("Interface wlp3s0"), Duration::from_secs(5)).unwrap();
    let probe = config
        .bitrate_degraded(num(20.0))
        .interval(Duration::from_secs(1))
        .ip(true)
        .device("wlan1".to_string())
        .configure();
    assert_eq!(config.device, "wlan1");
    assert_eq!(probe.bitrate_degraded, num(20.0));
    assert_eq!(probe.max_bitrate, num(20.0));
    assert_eq!(probe.interval, Duration::from_secs(1));
    assert!(probe.ip);
    assert_eq!(probe.device, "wlan1");
    assert_eq!(probe.ssid, None);
}

#[test]
fn wifi_probe_labels_the_complaints_of_its_commands() {
    let config = ConfigureWifi::new(&ok("Interface wlp3s0"), Duration::from_secs(5)).unwrap();
    let probe = config.configure();
    assert_eq!(probe.link_output(&ok(IW_LINK)), Ok(IW_LINK.to_string()));
    assert_eq!(
        probe.link_output(&failed("No such device (-19)")),
        Err(BarError::Bar("'iw dev wlp3s0' ERROR: No such device (-19)".to_string()))
    );
    assert_eq!(probe.address_output(&ok("1: lo")), Ok("1: lo".to_string()));
    assert_eq!(
        probe.address_output(&failed("denied")),
        Err(BarError::Bar("'ip addr list' ERROR: denied".to_string()))
    );
}

#[test]
fn networks_are_the_same_by_name() {
    let home = Some("home".to_string());
    let work = Some("work".to_string());
    assert!(same_network(&home, &Some("home".to_string())));
    assert!(!same_network(&home, &work));
    assert!(!same_network(&home, &None));
    assert!(!same_network(&None, &work));
    assert!(same_network(&None, &None));
}

#[test]
fn highest_bit_rate_is_kept_per_network() {
    let home = Some("home".to_string());
    let mut last = WifiStatus::new(num(53.0));
    last.ssid = home.clone();
    last.max_bitrate = num(400.0);
    assert_eq!(next_peak(&last, num(53.0), &home, Some(num(300.0))), num(400.0));
    assert_eq!(next_peak(&last, num(53.0), &home, Some(num(866.7))), num(866.7));
    assert_eq!(next_peak(&last, num(53.0), &home, Some(num(400.0))), num(400.0));
    assert_eq!(next_peak(&last, num(53.0), &home, None), num(400.0));
    assert_eq!(next_peak(&last, num(53.0), &home, Some(num(f64::NAN))), num(400.0));
    let work = Some("work".to_string());
    assert_eq!(next_peak(&last, num(53.0), &work, Some(num(300.0))), num(300.0));
    assert_eq!(next_peak(&last, num(53.0), &work, Some(num(20.0))), num(53.0));
    assert_eq!(next_peak(&last, num(53.0), &work, None), num(53.0));
    assert_eq!(next_peak(&last, num(53.0), &None, None), num(53.0));
}

#[test]
fn next_status_takes_the_report_and_the_numbers() {
    let last = WifiStatus::new(num(53.0));
    let report = LinkReport::read(IW_LINK, false);
    let status =
        next_status(&last, num(53.0), report, Some(num(866.7)), Some(num(-52.0)), 100);
    assert_eq!(
        status,
        WifiStatus {
            ssid: Some("home network".to_string()),
            ip: None,
            signal: Some(num(-52.0)),
            quality: 100,
            max_bitrate: num(866.7),
        }
    );
    let report = LinkReport::read(IW_LINK, false);
    let slower = next_status(&status, num(53.0), report, Some(num(433.3)), Some(num(-60.0)), 49);
    assert_eq!(slower.quality, 49);
    assert_eq!(slower.max_bitrate, num(866.7));
    let down = LinkReport::read("Not connected.", false);
    let lost = next_status(&slower, num(53.0), down, None, None, 77);
    assert_eq!(
        lost,
        WifiStatus { ssid: None, ip: None, signal: None, quality: 0, max_bitrate: num(53.0) }
    );
}

#[test]
fn scenario_polling_probe_reads_at_once_and_again_after_its_interval() {
    let interval = Duration::from_millis(100);
    let mut poller = Poller::new(interval, false, "SysTime ERROR: ".to_string());
    let mut clock = Duration::from_millis(0);
    let mut sent: Vec<(Duration, Message)> = Vec::new();
    for tick in 0..3 {
        assert!(poller.wants_reading());
        let reading = Message::Time(format!("reading {}", tick));
        let decision = poller.step(PollEvent::Read(Ok(reading)));
        if let Some(msg) = decision.send {
            sent.push((clock, msg));
        }
        assert_eq!(poller.phase, PollPhase::Parked);
        assert!(!poller.wants_reading());
        clock += poller.interval;
        assert_eq!(poller.step(PollEvent::Woken), nothing());
    }
    assert_eq!(
        sent,
        vec![
            (Duration::from_millis(0), Message::Time("reading 0".to_string())),
            (Duration::from_millis(100), Message::Time("reading 1".to_string())),
            (Duration::from_millis(200), Message::Time("reading 2".to_string())),
        ]
    );
}

#[test]
fn polling_probe_that_needs_its_first_reading_fails_without_it() {
    let mut poller = Poller::new(Duration::from_secs(5), true, "Battery Sensor Error: ".into());
    assert_eq!(poller.phase, PollPhase::Registering);
    let e = BarError::Bar("no battery".to_string());
    let decision = poller.step(PollEvent::Read(Err(e)));
    assert_eq!(
        decision,
        PollDecision {
            send: None,
            report: None,
            failure: Some(BarError::Bar("no battery".to_string()))
        }
    );
    assert_eq!(poller.phase, PollPhase::Failed);
    assert!(!poller.wants_reading());
    assert_eq!(poller.step(PollEvent::Woken), nothing());
    assert_eq!(poller.step(PollEvent::Read(Ok(Message::Unpark))), nothing());
    assert_eq!(poller.phase, PollPhase::Failed);
}

#[test]
fn polling_probe_goes_on_after_a_reading_that_failed() {
    let mut poller = Poller::new(Duration::from_secs(5), true, "volume sensor ERROR: ".into());
    let first = poller.step(PollEvent::Read(Ok(Message::Volume("40".to_string()))));
    assert_eq!(first.send, Some(Message::Volume("40".to_string())));
    poller.step(PollEvent::Woken);
    assert_eq!(poller.phase, PollPhase::Reading);
    let e = BarError::Bar("'vol get' ERROR: busy".to_string());
    let second = poller.step(PollEvent::Read(Err(e)));
    assert_eq!(
        second,
        PollDecision {
            send: None,
            report: Some("volume sensor ERROR: Bar error: 'vol get' ERROR: busy".to_string()),
            failure: None
        }
    );
    assert_eq!(poller.phase, PollPhase::Parked);
    poller.step(PollEvent::Woken);
    let third = poller.step(PollEvent::Read(Ok(Message::Volume("41".to_string()))));
    assert_eq!(third.send, Some(Message::Volume("41".to_string())));
}

#[test]
fn polling_probe_that_does_not_need_its_first_reading_reports_and_goes_on() {
    let mut poller = Poller::new(Duration::from_secs(5), false, "wifistatus ERROR: ".into());
    let e = BarError::Bar("down".to_string());
    let decision = poller.step(PollEvent::Read(Err(e)));
    assert_eq!(decision.report, Some("wifistatus ERROR: Bar error: down".to_string()));
    assert_eq!(decision.failure, None);
    assert_eq!(poller.phase, PollPhase::Parked);
}

#[test]
fn polling_probe_takes_no_reading_while_it_sleeps() {
    let mut poller = Poller::new(Duration::from_secs(5), false, String::new());
    poller.step(PollEvent::Read(Ok(Message::Unpark)));
    assert_eq!(poller.phase, PollPhase::Parked);
    assert_eq!(poller.step(PollEvent::Read(Ok(Message::Unpark))), nothing());
    assert_eq!(poller.phase, PollPhase::Parked);
    let mut fresh = Poller::new(Duration::from_secs(5), false, String::new());
    assert_eq!(fresh.step(PollEvent::Woken), nothing());
    assert_eq!(fresh.phase, PollPhase::Registering);
}

#[test]
fn wifi_settings_fall_back_to_the_usual_interface() {
    let interval = Duration::from_millis(5000);
    let config = ConfigureWifi::with_device(None, interval);
    assert_eq!(config.device, "wlan0");
    assert_eq!(config.bitrate_degraded, num(53.0));
    assert_eq!(config.interval, interval);
    assert!(!config.ip);
    let config = ConfigureWifi::with_device(Some("wlp3s0".to_string()), interval);
    assert_eq!(config.device, "wlp3s0");
    assert_eq!(config.bitrate_degraded, num(53.0));
    assert_eq!(config.interval, interval);
    assert!(!config.ip);
}

#[test]
fn time_message_is_the_time_as_it_was_written() {
    assert_eq!(
        SysTime::message_of(Some("2017-04-02 12:50:32".to_string())),
        Ok(Message::Time("2017-04-02 12:50:32".to_string()))
    );
    assert_eq!(
        SysTime::message_of(None),
        Err(BarError::Bar("clock out of range".to_string()))
    );
}
