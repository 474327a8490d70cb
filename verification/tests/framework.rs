use smtc2web_dev::framework::{
    choose_launch, detect_script, detection_files, frameworks, launch_command, local_bin,
    package_has_dep, resolve, script_command, tool_command, unknown_framework, Launch, LocalBin,
};
use smtc2web_dev::port::{observe_line, parse_port};
use smtc2web_dev::ready::{proxy_mode, ProbeAction, ProbeEvent, ReadyProbe};

fn names(list: &[&str]) -> Vec<String> {
    list.iter().map(|s| s.to_string()).collect()
}

fn name_of(launch: Option<Launch>) -> Option<String> {
    launch.map(|l| l.name())
}

fn resolved(forced: &str, present: &[&str], package: Option<&str>) -> Option<String> {
    name_of(resolve(forced, &names(present), package))
}

#[test]
fn every_framework_is_found_by_each_of_its_files() {
    for framework in frameworks() {
        for file in framework.detect {
            assert_eq!(resolved("auto", &[*file], None), Some(framework.id.to_string()));
        }
    }
}

#[test]
fn frameworks_are_looked_for_in_order() {
    let ids: Vec<&str> = frameworks().iter().map(|f| f.id).collect();
    assert_eq!(
        ids,
        vec!["next", "nuxt", "astro", "svelte", "vite", "vue-cli", "webpack", "angular"]
    );
    assert_eq!(
        resolved("auto", &["vite.config.ts", "svelte.config.js"], None),
        Some("svelte".to_string())
    );
    assert_eq!(
        resolved("auto", &["angular.json", "webpack.config.js"], None),
        Some("webpack".to_string())
    );
}

#[test]
fn all_detection_files_are_listed() {
    let files = detection_files();
    assert_eq!(files.len(), 24);
    assert_eq!(files[0], "next.config.js");
    assert_eq!(files[23], "angular.json");
    assert!(files.contains(&"vite.config.cts"));
}

#[test]
fn known_names_are_taken_at_their_word() {
    for framework in frameworks() {
        assert_eq!(
            resolved(framework.id, &["next.config.js"], None),
            Some(framework.id.to_string())
        );
        assert_eq!(unknown_framework(framework.id), None);
    }
}

#[test]
fn unknown_names_and_none_start_nothing() {
    let package = Some("{\"scripts\":{\"dev\":\"x\"},\"dependencies\":{\"vite\":\"1\"}}");
    assert_eq!(resolved("none", &["next.config.js"], package), None);
    assert_eq!(resolved("gatsby", &["next.config.js"], package), None);
    assert_eq!(resolved("", &["next.config.js"], package), None);
    assert_eq!(resolved("Vite", &["next.config.js"], package), None);
    assert_eq!(
        unknown_framework("gatsby"),
        Some("警告: 未知框架 'gatsby', 使用静态模式".to_string())
    );
    for mode in ["none", "auto", "script"] {
        assert_eq!(unknown_framework(mode), None);
    }
}

#[test]
fn packages_are_looked_at_after_files() {
    let with_vite = "{\"devDependencies\":{\"vite\":\"^5\"},\"scripts\":{\"dev\":\"x\"}}";
    let without = "{\"scripts\":{\"start\":\"x\",\"serve\":\"y\"}}";
    assert_eq!(resolved("auto", &[], Some(with_vite)), Some("vite".to_string()));
    assert_eq!(
        resolved("auto", &["angular.json"], Some(with_vite)),
        Some("angular".to_string())
    );
    assert_eq!(
        resolved("auto", &[], Some(without)),
        Some("package.json script \"start\"".to_string())
    );
    assert_eq!(
        resolved("script", &["angular.json"], Some(with_vite)),
        Some("package.json script \"dev\"".to_string())
    );
    assert_eq!(resolved("auto", &[], None), None);
    assert_eq!(resolved("script", &[], Some("{}")), None);
}

#[test]
fn choices_follow_from_plain_facts() {
    let none = names(&[]);
    assert_eq!(name_of(choose_launch("auto", &none, true, None)), Some("vite".to_string()));
    assert_eq!(
        name_of(choose_launch("auto", &none, false, Some("serve".to_string()))),
        Some("package.json script \"serve\"".to_string())
    );
    assert_eq!(name_of(choose_launch("auto", &none, false, None)), None);
    assert_eq!(name_of(choose_launch("vite", &none, false, None)), Some("vite".to_string()));
}

#[test]
fn dependencies_are_read_from_both_lists() {
    assert!(package_has_dep(Some("{\"dependencies\":{\"vite\":\"1\"}}"), "vite"));
    assert!(package_has_dep(Some("{\"devDependencies\":{\"vite\":null}}"), "vite"));
    assert!(!package_has_dep(Some("{\"peerDependencies\":{\"vite\":\"1\"}}"), "vite"));
    assert!(!package_has_dep(Some("{\"dependencies\":[\"vite\"]}"), "vite"));
    assert!(!package_has_dep(Some("{\"dependencies\":{\"vite\":\"1\"}"), "vite"));
    assert!(!package_has_dep(None, "vite"));
}

#[test]
fn scripts_are_tried_in_order() {
    let of = |text: &str| detect_script(Some(text));
    assert_eq!(
        of("{\"scripts\":{\"serve\":\"c\",\"start\":\"b\",\"dev\":\"a\"}}"),
        Some("dev".to_string())
    );
    assert_eq!(of("{\"scripts\":{\"serve\":\"c\",\"start\":\"b\"}}"), Some("start".to_string()));
    assert_eq!(of("{\"scripts\":{\"serve\":\"c\",\"build\":\"b\"}}"), Some("serve".to_string()));
    assert_eq!(of("{\"scripts\":{\"build\":\"b\"}}"), None);
    assert_eq!(of("{\"scripts\":\"dev\"}"), None);
    assert_eq!(of("{}"), None);
    assert_eq!(of("nonsense"), None);
    assert_eq!(detect_script(None), None);
}

#[test]
fn tools_are_run_from_the_theme_or_by_npx() {
    let list = frameworks();
    let vite = list.iter().find(|f| f.id == "vite").unwrap();
    let next = list.iter().find(|f| f.id == "next").unwrap();

    let local = tool_command(vite, 5173, Some("/t/node_modules/.bin/vite".to_string()), false);
    assert_eq!(local.program, "/t/node_modules/.bin/vite");
    assert_eq!(local.args, names(&["--port", "5173", "--strictPort"]));
    assert_eq!(local.port_env, None);

    let remote = tool_command(next, 80, None, false);
    assert_eq!(remote.program, "npx");
    assert_eq!(remote.args, names(&["next", "dev", "-p", "80"]));
    assert_eq!(remote.describe(), "npx next dev -p 80");

    let windows = tool_command(next, 65535, None, true);
    assert_eq!(windows.program, "npx.cmd");
    assert_eq!(windows.args, names(&["next", "dev", "-p", "65535"]));
}

#[test]
fn scripts_get_the_port_in_their_environment() {
    let command = script_command("dev", 5173, false);
    assert_eq!(command.describe(), "npm run dev");
    assert_eq!(command.port_env, Some(5173));
    assert_eq!(script_command("dev", 5173, true).program, "npm.cmd");

    let launch = Launch::Script { script: "start".to_string() };
    let command = launch_command(&launch, 9, Some("ignored".to_string()), false);
    assert_eq!(command.program, "npm");
    assert_eq!(command.args, names(&["run", "start"]));
    assert_eq!(command.port_env, Some(9));
}

#[test]
fn the_launch_of_a_tool_is_its_command() {
    let launch = resolve("angular", &names(&[]), None).unwrap();
    let command = launch_command(&launch, 4200, None, false);
    assert_eq!(command.describe(), "npx ng serve --port 4200");
    assert_eq!(command.port_env, None);
}

#[test]
fn the_cmd_file_counts_on_windows_only() {
    assert_eq!(local_bin(true, true, true), Some(LocalBin::Cmd));
    assert_eq!(local_bin(true, false, true), Some(LocalBin::Plain));
    assert_eq!(local_bin(false, true, true), Some(LocalBin::Plain));
    assert_eq!(local_bin(false, true, false), None);
    assert_eq!(local_bin(true, false, false), None);
}

#[test]
fn ports_are_read_from_addresses() {
    assert_eq!(parse_port("  Local: http://localhost:5173/"), Some(5173));
    assert_eq!(parse_port("ready on https://0.0.0.0:3000"), Some(3000));
    assert_eq!(parse_port("http://[::1]:8080 ok"), Some(8080));
    assert_eq!(parse_port("http://a:1/ https://b:2/"), Some(1));
    assert_eq!(parse_port("https://b:2/ http://a:1/"), Some(2));
    assert_eq!(parse_port("http://x:+80/"), Some(80));
    assert_eq!(parse_port("http://x:0080/"), Some(80));
    assert_eq!(parse_port("http://x:65535\r"), Some(65535));
}

#[test]
fn lines_without_a_port_are_passed_over() {
    assert_eq!(parse_port(""), None);
    assert_eq!(parse_port("listening on 5173"), None);
    assert_eq!(parse_port("http://localhost/"), None);
    assert_eq!(parse_port("http://localhost:/"), None);
    assert_eq!(parse_port("http://localhost:+/"), None);
    assert_eq!(parse_port("http://localhost:-1/"), None);
    assert_eq!(parse_port("http://localhost:65536/"), None);
    assert_eq!(parse_port("http://localhost:80a/"), None);
    assert_eq!(parse_port("http://localhost:80?q=1"), None);
    // Only the first address counts.
    assert_eq!(parse_port("http://a/ http://b:1/"), None);
}

#[test]
fn the_last_advertised_port_is_assumed() {
    let mut port = 5173;
    for line in ["starting", "http://localhost:5174/", "compiled", "http://localhost:5175/", "x"] {
        port = observe_line(port, line);
    }
    assert_eq!(port, 5175);
    assert_eq!(observe_line(7, "nothing"), 7);
}

#[test]
fn a_silent_server_is_given_up_after_thirty_probes() {
    let mut probe = ReadyProbe::new();
    let mut connects = 0;
    let mut pauses = 0;
    loop {
        match probe.action {
            ProbeAction::CheckExit => {}
            ProbeAction::Connect => connects += 1,
            ProbeAction::Pause => pauses += 1,
            end => {
                assert_eq!(end, ProbeAction::TimedOut);
                break;
            }
        }
        probe.wait_ready(ProbeEvent::Continue);
    }
    assert_eq!(connects, 30);
    assert_eq!(pauses, 30);
}

#[test]
fn a_server_that_answers_or_ends_is_noticed() {
    let mut probe = ReadyProbe::new();
    probe.wait_ready(ProbeEvent::Continue);
    assert_eq!(probe.action, ProbeAction::Connect);
    probe.wait_ready(ProbeEvent::Connected);
    assert_eq!(probe.action, ProbeAction::Ready);
    probe.wait_ready(ProbeEvent::Exited);
    assert_eq!(probe.action, ProbeAction::Ready);

    let mut probe = ReadyProbe::new();
    probe.wait_ready(ProbeEvent::Exited);
    assert_eq!(probe.action, ProbeAction::ServerExited);
}

#[test]
fn requests_are_proxied_to_a_running_server_only() {
    assert!(proxy_mode(true, false));
    assert!(!proxy_mode(true, true));
    assert!(!proxy_mode(false, false));
}
