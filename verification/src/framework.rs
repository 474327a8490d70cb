//! Frameworks with a dev server of their own: which one a theme uses, how its server is started,
//! and on which port it answers.
use vstd::prelude::*;
use crate::document::{json_member, parse_json};
use crate::text::{decimal_of, join, text_eq};
#[allow(unused_imports)]
use crate::config::requested;
#[allow(unused_imports)]
use crate::document::{DocView, json_content, json_text, nested};
#[allow(unused_imports)]
use crate::text::{decimal, joined, opt_text, slices, texts};

verus! {

/// A framework. Its server is started by `<bin> <args...> <port_flag> <port>
/// [strict_port_flag]`.
#[derive(Clone, Copy, Debug)]
pub struct Framework {
    pub id: &'static str,
    /// The files that show that a theme uses the framework.
    pub detect: &'static [&'static str],
    pub bin: &'static str,
    pub args: &'static [&'static str],
    pub port_flag: &'static str,
    pub strict_port_flag: Option<&'static str>,
}

/// The values that a [`Framework`] holds.
#[verifier::ext_equal]
pub struct FrameworkView {
    pub id: Seq<char>,
    pub detect: Seq<Seq<char>>,
    pub bin: Seq<char>,
    pub args: Seq<Seq<char>>,
    pub port_flag: Seq<char>,
    pub strict_port_flag: Option<Seq<char>>,
}

impl View for Framework {
    type V = FrameworkView;

    open spec fn view(&self) -> FrameworkView {
        FrameworkView {
            id: self.id@,
            detect: slices(self.detect@),
            bin: self.bin@,
            args: slices(self.args@),
            port_flag: self.port_flag@,
            strict_port_flag: match self.strict_port_flag {
                Some(flag) => Some(flag@),
                None => None,
            },
        }
    }
}

/// How a theme's dev server is started.
#[derive(Debug)]
pub enum Launch {
    /// By the tool of a framework.
    Tool(Framework),
    /// By a script of `package.json`.
    Script { script: String },
}

/// The values that a [`Launch`] holds.
#[verifier::ext_equal]
pub enum LaunchView {
    Tool(FrameworkView),
    Script { script: Seq<char> },
}

impl View for Launch {
    type V = LaunchView;

    open spec fn view(&self) -> LaunchView {
        match self {
            Launch::Tool(framework) => LaunchView::Tool(framework@),
            Launch::Script { script } => LaunchView::Script { script: script@ },
        }
    }
}

/// A launch that may be absent, as values.
pub open spec fn opt_launch(launch: Option<Launch>) -> Option<LaunchView> {
    match launch {
        Some(l) => Some(l@),
        None => None,
    }
}

/// Vite.
pub open spec fn vite_view() -> FrameworkView {
    FrameworkView {
        id: "vite"@,
        detect: seq![
            "vite.config.js"@,
            "vite.config.mjs"@,
            "vite.config.ts"@,
            "vite.config.mts"@,
            "vite.config.cjs"@,
            "vite.config.cts"@,
        ],
        bin: "vite"@,
        args: seq![],
        port_flag: "--port"@,
        strict_port_flag: Some("--strictPort"@),
    }
}

/// The frameworks that are known, in the order in which they are looked for.
pub open spec fn known() -> Seq<FrameworkView> {
    seq![
        FrameworkView {
            id: "next"@,
            detect: seq![
                "next.config.js"@,
                "next.config.mjs"@,
                "next.config.ts"@,
                "next.config.cjs"@,
            ],
            bin: "next"@,
            args: seq!["dev"@],
            port_flag: "-p"@,
            strict_port_flag: None,
        },
        FrameworkView {
            id: "nuxt"@,
            detect: seq!["nuxt.config.js"@, "nuxt.config.ts"@, "nuxt.config.mjs"@],
            bin: "nuxt"@,
            args: seq!["dev"@],
            port_flag: "--port"@,
            strict_port_flag: None,
        },
        FrameworkView {
            id: "astro"@,
            detect: seq!["astro.config.js"@, "astro.config.ts"@, "astro.config.mjs"@],
            bin: "astro"@,
            args: seq!["dev"@],
            port_flag: "--port"@,
            strict_port_flag: None,
        },
        FrameworkView {
            id: "svelte"@,
            detect: seq!["svelte.config.js"@, "svelte.config.ts"@],
            bin: "vite"@,
            args: seq![],
            port_flag: "--port"@,
            strict_port_flag: Some("--strictPort"@),
        },
        vite_view(),
        FrameworkView {
            id: "vue-cli"@,
            detect: seq!["vue.config.js"@, "vue.config.ts"@],
            bin: "vue-cli-service"@,
            args: seq!["serve"@],
            port_flag: "--port"@,
            strict_port_flag: None,
        },
        FrameworkView {
            id: "webpack"@,
            detect: seq!["webpack.config.js"@, "webpack.config.ts"@, "webpack.config.mjs"@],
            bin: "webpack"@,
            args: seq!["serve"@],
            port_flag: "--port"@,
            strict_port_flag: None,
        },
        FrameworkView {
            id: "angular"@,
            detect: seq!["angular.json"@],
            bin: "ng"@,
            args: seq!["serve"@],
            port_flag: "--port"@,
            strict_port_flag: None,
        },
    ]
}

fn vite() -> (framework: Framework)
    ensures
        framework@ == vite_view(),
{
    let framework = Framework {
        id: "vite",
        detect: &[
            "vite.config.js",
            "vite.config.mjs",
            "vite.config.ts",
            "vite.config.mts",
            "vite.config.cjs",
            "vite.config.cts",
        ],
        bin: "vite",
        args: &[],
        port_flag: "--port",
        strict_port_flag: Some("--strictPort"),
    };
    assert(framework@.detect =~= vite_view().detect);
    assert(framework@.args =~= vite_view().args);
    framework
}

/// The frameworks that are known.
pub fn frameworks() -> (list: Vec<Framework>)
    ensures
        list@.map_values(|f: Framework| f@) == known(),
{
    let next = Framework {
        id: "next",
        detect: &["next.config.js", "next.config.mjs", "next.config.ts", "next.config.cjs"],
        bin: "next",
        args: &["dev"],
        port_flag: "-p",
        strict_port_flag: None,
    };
    let nuxt = Framework {
        id: "nuxt",
        detect: &["nuxt.config.js", "nuxt.config.ts", "nuxt.config.mjs"],
        bin: "nuxt",
        args: &["dev"],
        port_flag: "--port",
        strict_port_flag: None,
    };
    let astro = Framework {
        id: "astro",
        detect: &["astro.config.js", "astro.config.ts", "astro.config.mjs"],
        bin: "astro",
        args: &["dev"],
        port_flag: "--port",
        strict_port_flag: None,
    };
    let svelte = Framework {
        id: "svelte",
        detect: &["svelte.config.js", "svelte.config.ts"],
        bin: "vite",
        args: &[],
        port_flag: "--port",
        strict_port_flag: Some("--strictPort"),
    };
    let vue_cli = Framework {
        id: "vue-cli",
        detect: &["vue.config.js", "vue.config.ts"],
        bin: "vue-cli-service",
        args: &["serve"],
        port_flag: "--port",
        strict_port_flag: None,
    };
    let webpack = Framework {
        id: "webpack",
        detect: &["webpack.config.js", "webpack.config.ts", "webpack.config.mjs"],
        bin: "webpack",
        args: &["serve"],
        port_flag: "--port",
        strict_port_flag: None,
    };
    let angular = Framework {
        id: "angular",
        detect: &["angular.json"],
        bin: "ng",
        args: &["serve"],
        port_flag: "--port",
        strict_port_flag: None,
    };
    assert(next@ =~= known()[0] && nuxt@ =~= known()[1] && astro@ =~= known()[2]);
    assert(svelte@ =~= known()[3] && vue_cli@ =~= known()[5]);
    assert(webpack@ =~= known()[6] && angular@ =~= known()[7]);
    let list = vec![next, nuxt, astro, svelte, vite(), vue_cli, webpack, angular];
    assert(list@.map_values(|f: Framework| f@) =~= known());
    list
}

/// The files of all the frameworks of a list.
pub open spec fn all_files(list: Seq<FrameworkView>) -> Seq<Seq<char>>
    decreases list.len(),
{
    if list.len() == 0 {
        seq![]
    } else {
        all_files(list.drop_last()) + list.last().detect
    }
}

/// The files whose presence tells which framework a theme uses.
pub fn detection_files() -> (files: Vec<&'static str>)
    ensures
        slices(files@) == all_files(known()),
{
    let list = frameworks();
    let ghost views = list@.map_values(|f: Framework| f@);
    let mut files: Vec<&'static str> = Vec::new();
    let mut i: usize = 0;
    assert(slices(files@) =~= all_files(views.take(0)));
    while i < list.len()
        invariant
            i <= list.len(),
            views == list@.map_values(|f: Framework| f@),
            slices(files@) == all_files(views.take(i as int)),
        decreases list.len() - i,
    {
        let detect = list[i].detect;
        let ghost before = files@;
        let mut k: usize = 0;
        while k < detect.len()
            invariant
                k <= detect.len(),
                files@ == before + detect@.take(k as int),
            decreases detect.len() - k,
        {
            files.push(detect[k]);
            assert(detect@.take(k + 1) =~= detect@.take(k as int).push(detect@[k as int]));
            k += 1;
        }
        proof {
            assert(detect@.take(k as int) =~= detect@);
            assert(slices(files@) =~= slices(before)
                + slices(detect@));
            assert(views.take(i + 1).drop_last() =~= views.take(i as int));
            assert(views.take(i + 1).last() == list@[i as int]@);
        }
        i += 1;
    }
    assert(views.take(i as int) =~= views);
    files
}

/// A framework is in use if one of its files is present.
pub open spec fn in_use(framework: FrameworkView, present: Seq<Seq<char>>) -> bool {
    exists|i: int|
        0 <= i < framework.detect.len() && #[trigger] present.contains(framework.detect[i])
}

/// The first framework of a list that is in use.
pub open spec fn detected(list: Seq<FrameworkView>, present: Seq<Seq<char>>) -> Option<
    FrameworkView,
>
    decreases list.len(),
{
    if list.len() == 0 {
        None
    } else if in_use(list[0], present) {
        Some(list[0])
    } else {
        detected(list.drop_first(), present)
    }
}

/// The first framework of a list with a given name.
pub open spec fn named(list: Seq<FrameworkView>, id: Seq<char>) -> Option<FrameworkView>
    decreases list.len(),
{
    if list.len() == 0 {
        None
    } else if list[0].id == id {
        Some(list[0])
    } else {
        named(list.drop_first(), id)
    }
}

/// A dev server that a script starts, if there is one.
pub open spec fn by_script(script: Option<Seq<char>>) -> Option<LaunchView> {
    match script {
        Some(s) => Some(LaunchView::Script { script: s }),
        None => None,
    }
}

/// How the dev server is started if `forced` is asked for. `auto` takes the first framework that
/// is in use, else Vite if the package depends on it, else a script of the package; `script` takes
/// a script; `none`, and a name that is not known, start no dev server.
pub open spec fn launch_choice(
    forced: Seq<char>,
    present: Seq<Seq<char>>,
    has_vite: bool,
    script: Option<Seq<char>>,
) -> Option<LaunchView> {
    if forced == "none"@ {
        None
    } else if forced == "auto"@ {
        match detected(known(), present) {
            Some(framework) => Some(LaunchView::Tool(framework)),
            None => if has_vite {
                Some(LaunchView::Tool(vite_view()))
            } else {
                by_script(script)
            },
        }
    } else if forced == "script"@ {
        by_script(script)
    } else {
        match named(known(), forced) {
            Some(framework) => Some(LaunchView::Tool(framework)),
            None => None,
        }
    }
}

/// A package depends on another if either list of dependencies has a member of that name.
pub open spec fn depends_on(package: DocView, name: Seq<char>) -> bool {
    nested(package, "dependencies"@, name) is Some || nested(
        package,
        "devDependencies"@,
        name,
    ) is Some
}

/// The script of a package that starts a dev server: the first of `dev`, `start` and `serve`.
pub open spec fn dev_script(package: DocView) -> Option<Seq<char>> {
    if nested(package, "scripts"@, "dev"@) is Some {
        Some("dev"@)
    } else if nested(package, "scripts"@, "start"@) is Some {
        Some("start"@)
    } else if nested(package, "scripts"@, "serve"@) is Some {
        Some("serve"@)
    } else {
        None
    }
}

/// What `package.json` holds, if it was read and is well-formed.
pub open spec fn package_of(content: Option<&str>) -> Option<DocView> {
    match content {
        Some(text) => json_text(text@),
        None => None,
    }
}

fn has_nested(package: &serde_json::Value, section: &str, name: &str) -> (found: bool)
    ensures
        found == nested(
            json_content(*package),
            section@,
            name@,
        ) is Some,
{
    match json_member(package, section) {
        Some(members) => json_member(members, name).is_some(),
        None => false,
    }
}

/// Whether a parsed package depends on another.
pub fn has_dependency(package: &serde_json::Value, name: &str) -> (depends: bool)
    ensures
        depends == depends_on(json_content(*package), name@),
{
    has_nested(package, "dependencies", name) || has_nested(package, "devDependencies", name)
}

/// The script of a parsed package that starts a dev server.
pub fn find_script(package: &serde_json::Value) -> (script: Option<String>)
    ensures
        opt_text(script) == dev_script(json_content(*package)),
{
    if has_nested(package, "scripts", "dev") {
        Some("dev".to_owned())
    } else if has_nested(package, "scripts", "start") {
        Some("start".to_owned())
    } else if has_nested(package, "scripts", "serve") {
        Some("serve".to_owned())
    } else {
        None
    }
}

/// Whether the package whose `package.json` has this content depends on another. A file that is
/// missing or not well-formed names no dependencies.
pub fn package_has_dep(content: Option<&str>, name: &str) -> (depends: bool)
    ensures
        depends == (package_of(content) matches Some(package) && depends_on(package, name@)),
{
    match content {
        Some(text) => match parse_json(text) {
            Some(package) => has_dependency(&package, name),
            None => false,
        },
        None => false,
    }
}

/// The script, in the `package.json` with this content, that starts a dev server. A file that is
/// missing or not well-formed has no scripts.
pub fn detect_script(content: Option<&str>) -> (script: Option<String>)
    ensures
        opt_text(script) == match package_of(content) {
            Some(package) => dev_script(package),
            None => None,
        },
{
    match content {
        Some(text) => match parse_json(text) {
            Some(package) => find_script(&package),
            None => None,
        },
        None => None,
    }
}

fn is_present(name: &str, present: &Vec<String>) -> (found: bool)
    ensures
        found == texts(present@).contains(name@),
{
    let mut i: usize = 0;
    while i < present.len()
        invariant
            i <= present.len(),
            forall|j: int| 0 <= j < i ==> present@[j]@ != name@,
        decreases present.len() - i,
    {
        if text_eq(present[i].as_str(), name) {
            assert(texts(present@)[i as int] == name@);
            return true;
        }
        i += 1;
    }
    false
}

fn is_in_use(framework: &Framework, present: &Vec<String>) -> (found: bool)
    ensures
        found == in_use(framework@, texts(present@)),
{
    let detect = framework.detect;
    let mut i: usize = 0;
    while i < detect.len()
        invariant
            i <= detect.len(),
            detect == framework.detect,
            forall|j: int|
                0 <= j < i ==> !#[trigger] texts(present@).contains(
                    framework@.detect[j],
                ),
        decreases detect.len() - i,
    {
        assert(framework@.detect[i as int] == detect@[i as int]@);
        if is_present(detect[i], present) {
            return true;
        }
        i += 1;
    }
    false
}

fn script_launch(script: Option<String>) -> (launch: Option<Launch>)
    ensures
        opt_launch(launch) == by_script(opt_text(script)),
{
    match script {
        Some(script) => Some(Launch::Script { script }),
        None => None,
    }
}

/// How the dev server is started, given the files that are present, whether the package depends on
/// Vite, and the script that the package has for it.
pub fn choose_launch(
    forced: &str,
    present: &Vec<String>,
    has_vite: bool,
    script: Option<String>,
) -> (launch: Option<Launch>)
    ensures
        opt_launch(launch) == launch_choice(
            forced@,
            texts(present@),
            has_vite,
            opt_text(script),
        ),
{
    if text_eq(forced, "none") {
        return None;
    }
    let list = frameworks();
    let ghost views = list@.map_values(|f: Framework| f@);
    let mut i: usize = 0;
    assert(views.skip(0) =~= views);
    if text_eq(forced, "auto") {
        while i < list.len()
            invariant
                i <= list.len(),
                views == list@.map_values(|f: Framework| f@),
                detected(views, texts(present@)) == detected(
                    views.skip(i as int),
                    texts(present@),
                ),
                forced@ == "auto"@,
                forced@ != "none"@,
                views == known(),
            decreases list.len() - i,
        {
            assert(views.skip(i as int)[0] == list@[i as int]@);
            assert(views.skip(i as int).drop_first() =~= views.skip(i + 1));
            if is_in_use(&list[i], present) {
                return Some(Launch::Tool(list[i]));
            }
            i += 1;
        }
        if has_vite {
            return Some(Launch::Tool(vite()));
        }
        return script_launch(script);
    }
    if text_eq(forced, "script") {
        return script_launch(script);
    }
    while i < list.len()
        invariant
            i <= list.len(),
            views == list@.map_values(|f: Framework| f@),
            named(views, forced@) == named(views.skip(i as int), forced@),
            forced@ != "auto"@,
            forced@ != "none"@,
            forced@ != "script"@,
            views == known(),
        decreases list.len() - i,
    {
        assert(views.skip(i as int)[0] == list@[i as int]@);
        assert(views.skip(i as int).drop_first() =~= views.skip(i + 1));
        if text_eq(list[i].id, forced) {
            return Some(Launch::Tool(list[i]));
        }
        i += 1;
    }
    None
}

/// How the dev server of a theme is started. `present` names the files of
/// [`detection_files`] that the theme has, and `package_json` is the content of its
/// `package.json`, if it has one.
pub fn resolve(forced: &str, present: &Vec<String>, package_json: Option<&str>) -> (launch: Option<
    Launch,
>)
    ensures
        opt_launch(launch) == launch_choice(
            forced@,
            texts(present@),
            package_of(package_json) matches Some(package) && depends_on(package, "vite"@),
            match package_of(package_json) {
                Some(package) => dev_script(package),
                None => None,
            },
        ),
{
    choose_launch(
        forced,
        present,
        package_has_dep(package_json, "vite"),
        detect_script(package_json),
    )
}

/// A request that names neither a way to find a dev server nor a framework.
pub open spec fn is_unknown(forced: Seq<char>) -> bool {
    &&& forced != "none"@
    &&& forced != "auto"@
    &&& forced != "script"@
    &&& forall|i: int| 0 <= i < known().len() ==> #[trigger] known()[i].id != forced
}

/// What is said of a request that names nothing known.
pub fn unknown_framework(forced: &str) -> (warning: Option<String>)
    ensures
        opt_text(warning) == if is_unknown(forced@) {
            Some("警告: 未知框架 '"@ + forced@ + "', 使用静态模式"@)
        } else {
            None
        },
{
    if text_eq(forced, "none") || text_eq(forced, "auto") || text_eq(forced, "script") {
        return None;
    }
    let list = frameworks();
    let mut i: usize = 0;
    while i < list.len()
        invariant
            i <= list.len(),
            list@.map_values(|f: Framework| f@) == known(),
            list.len() == known().len(),
            forall|j: int| 0 <= j < i ==> #[trigger] known()[j].id != forced@,
        decreases list.len() - i,
    {
        assert(known()[i as int] == list@[i as int]@);
        if text_eq(list[i].id, forced) {
            assert(known()[i as int].id == forced@);
            return None;
        }
        i += 1;
    }
    let mut warning = "警告: 未知框架 '".to_owned();
    warning.append(forced);
    warning.append("', 使用静态模式");
    Some(warning)
}

impl Launch {
    /// What the launch is called.
    pub fn name(&self) -> (name: String)
        ensures
            name@ == match self@ {
                LaunchView::Tool(framework) => framework.id,
                LaunchView::Script { script } => "package.json script \""@ + script + "\""@,
            },
    {
        match self {
            Launch::Tool(framework) => framework.id.to_owned(),
            Launch::Script { script } => {
                let mut name = "package.json script \"".to_owned();
                name.append(script.as_str());
                name.append("\"");
                name
            },
        }
    }
}

/// A program to be run.
#[derive(Debug)]
pub struct CommandLine {
    pub program: String,
    pub args: Vec<String>,
    /// The port that the program finds in its environment under `PORT`.
    pub port_env: Option<u16>,
}

/// The values that a [`CommandLine`] holds.
#[verifier::ext_equal]
pub struct CommandView {
    pub program: Seq<char>,
    pub args: Seq<Seq<char>>,
    pub port_env: Option<u16>,
}

impl View for CommandLine {
    type V = CommandView;

    open spec fn view(&self) -> CommandView {
        CommandView {
            program: self.program@,
            args: texts(self.args@),
            port_env: self.port_env,
        }
    }
}

impl CommandLine {
    /// The command as it is typed.
    pub fn describe(&self) -> (text: String)
        ensures
            text@ == self@.program + " "@ + joined(self@.args, " "@),
    {
        let mut text = self.program.clone();
        text.append(" ");
        text.append(join(&self.args, " ").as_str());
        text
    }
}

/// The arguments of a framework's tool for a server on a given port.
pub open spec fn tool_args(framework: FrameworkView, port: u16) -> Seq<Seq<char>> {
    let args = framework.args.push(framework.port_flag).push(decimal(port as nat));
    match framework.strict_port_flag {
        Some(flag) => args.push(flag),
        None => args,
    }
}

/// The command that starts a framework's server. A tool that is installed with the theme is run
/// itself; any other is left to `npx`.
pub open spec fn tool_command_view(
    framework: FrameworkView,
    port: u16,
    local_bin: Option<Seq<char>>,
    windows: bool,
) -> CommandView {
    match local_bin {
        Some(path) => CommandView {
            program: path,
            args: tool_args(framework, port),
            port_env: None,
        },
        None => CommandView {
            program: if windows {
                "npx.cmd"@
            } else {
                "npx"@
            },
            args: seq![framework.bin] + tool_args(framework, port),
            port_env: None,
        },
    }
}

/// The command that starts a framework's server.
pub fn tool_command(
    framework: &Framework,
    port: u16,
    local_bin: Option<String>,
    windows: bool,
) -> (command: CommandLine)
    ensures
        command@ == tool_command_view(
            framework@,
            port,
            opt_text(local_bin),
            windows,
        ),
{
    let mut args: Vec<String> = Vec::new();
    let program = match &local_bin {
        Some(path) => path.clone(),
        None => {
            args.push(framework.bin.to_owned());
            if windows {
                "npx.cmd".to_owned()
            } else {
                "npx".to_owned()
            }
        },
    };
    let ghost head = args@;
    let fixed = framework.args;
    let mut i: usize = 0;
    while i < fixed.len()
        invariant
            i <= fixed.len(),
            texts(args@) == texts(head) + slices(
                fixed@,
            ).take(i as int),
        decreases fixed.len() - i,
    {
        let ghost before = args@;
        args.push(fixed[i].to_owned());
        assert(texts(args@) =~= texts(before).push(fixed@[i as int]@));
        assert(slices(fixed@).take(i + 1) =~= slices(fixed@).take(
            i as int,
        ).push(fixed@[i as int]@));
        i += 1;
    }
    assert(slices(fixed@).take(i as int) =~= framework@.args);
    let ghost base = args@;
    args.push(framework.port_flag.to_owned());
    args.push(decimal_of(port as u64));
    assert(texts(args@) =~= texts(base).push(framework@.port_flag).push(
        decimal(port as nat),
    ));
    if let Some(flag) = framework.strict_port_flag {
        let ghost before = args@;
        args.push(flag.to_owned());
        assert(texts(args@) =~= texts(before).push(flag@));
    }
    let command = CommandLine { program, args, port_env: None };
    assert(command@.args =~= texts(head) + tool_args(framework@, port));
    assert(texts(head) =~= if local_bin is Some {
        seq![]
    } else {
        seq![framework@.bin]
    });
    assert(command@.args =~= tool_command_view(
        framework@,
        port,
        opt_text(local_bin),
        windows,
    ).args);
    command
}

/// The command that runs a script of the package, with a port in its environment.
pub open spec fn script_command_view(script: Seq<char>, port: u16, windows: bool) -> CommandView {
    CommandView {
        program: if windows {
            "npm.cmd"@
        } else {
            "npm"@
        },
        args: seq!["run"@, script],
        port_env: Some(port),
    }
}

/// The command that runs a script of the package.
pub fn script_command(script: &str, port: u16, windows: bool) -> (command: CommandLine)
    ensures
        command@ == script_command_view(script@, port, windows),
{
    let program = if windows {
        "npm.cmd".to_owned()
    } else {
        "npm".to_owned()
    };
    let mut args: Vec<String> = Vec::new();
    args.push("run".to_owned());
    args.push(script.to_owned());
    assert(texts(args@) =~= seq!["run"@, script@]);
    CommandLine { program, args, port_env: Some(port) }
}

/// The command that starts a dev server.
pub open spec fn launch_command_view(
    launch: LaunchView,
    port: u16,
    local_bin: Option<Seq<char>>,
    windows: bool,
) -> CommandView {
    match launch {
        LaunchView::Tool(framework) => tool_command_view(framework, port, local_bin, windows),
        LaunchView::Script { script } => script_command_view(script, port, windows),
    }
}

/// The command that starts a dev server.
pub fn launch_command(launch: &Launch, port: u16, local_bin: Option<String>, windows: bool) -> (
command: CommandLine)
    ensures
        command@ == launch_command_view(
            launch@,
            port,
            opt_text(local_bin),
            windows,
        ),
{
    match launch {
        Launch::Tool(framework) => tool_command(framework, port, local_bin, windows),
        Launch::Script { script } => script_command(script.as_str(), port, windows),
    }
}

/// Which file of a tool that is installed with the theme is run.
#[derive(Clone, Copy, Debug, PartialEq, Eq, Structural)]
pub enum LocalBin {
    /// The file with the extension `cmd`.
    Cmd,
    /// The file without an extension.
    Plain,
}

/// Which file of a tool is run, given which of the two exist. The one with the extension counts on
/// Windows only, and comes first there.
pub fn local_bin(windows: bool, cmd_exists: bool, plain_exists: bool) -> (bin: Option<LocalBin>)
    ensures
        bin == if windows && cmd_exists {
            Some(LocalBin::Cmd)
        } else if plain_exists {
            Some(LocalBin::Plain)
        } else {
            None
        },
{
    if windows && cmd_exists {
        return Some(LocalBin::Cmd);
    }
    if plain_exists {
        Some(LocalBin::Plain)
    } else {
        None
    }
}

proof fn ids_differ()
    ensures
        forall|i: int, j: int|
            0 <= i < j < known().len() ==> #[trigger] known()[i].id != #[trigger] known()[j].id,
        forall|i: int|
            0 <= i < known().len() ==> {
                &&& #[trigger] known()[i].id != "none"@
                &&& known()[i].id != "auto"@
                &&& known()[i].id != "script"@
            },
        "none"@ != "auto"@,
        "script"@ != "none"@,
        "script"@ != "auto"@,
{
    reveal_strlit("none");
    reveal_strlit("auto");
    reveal_strlit("script");
    reveal_strlit("next");
    reveal_strlit("nuxt");
    reveal_strlit("astro");
    reveal_strlit("svelte");
    reveal_strlit("vite");
    reveal_strlit("vue-cli");
    reveal_strlit("webpack");
    reveal_strlit("angular");
    assert("none"@.len() == 4 && "none"@[0] == 'n' && "none"@[1] == 'o');
    assert("next"@.len() == 4 && "next"@[0] == 'n' && "next"@[1] == 'e');
    assert("nuxt"@.len() == 4 && "nuxt"@[0] == 'n' && "nuxt"@[1] == 'u');
    assert("auto"@.len() == 4 && "auto"@[0] == 'a');
    assert("vite"@.len() == 4 && "vite"@[0] == 'v');
    assert("astro"@.len() == 5);
    assert("svelte"@.len() == 6 && "svelte"@[1] == 'v');
    assert("script"@.len() == 6 && "script"@[1] == 'c');
    assert("vue-cli"@.len() == 7 && "vue-cli"@[0] == 'v');
    assert("webpack"@.len() == 7 && "webpack"@[0] == 'w');
    assert("angular"@.len() == 7 && "angular"@[0] == 'a');
}

proof fn named_at(list: Seq<FrameworkView>, i: int)
    requires
        0 <= i < list.len(),
        forall|j: int| 0 <= j < i ==> #[trigger] list[j].id != list[i].id,
    ensures
        named(list, list[i].id) == Some(list[i]),
    decreases i,
{
    if i > 0 {
        let tail = list.drop_first();
        assert(list[0].id != list[i].id);
        assert forall|j: int| 0 <= j < i - 1 implies #[trigger] tail[j].id != tail[i - 1].id by {
            assert(tail[j] == list[j + 1]);
        }
        named_at(tail, i - 1);
    }
}

proof fn not_named(list: Seq<FrameworkView>, id: Seq<char>)
    requires
        forall|j: int| 0 <= j < list.len() ==> #[trigger] list[j].id != id,
    ensures
        named(list, id) is None,
    decreases list.len(),
{
    if list.len() > 0 {
        let tail = list.drop_first();
        assert(list[0].id != id);
        assert forall|j: int| 0 <= j < tail.len() implies #[trigger] tail[j].id != id by {
            assert(tail[j] == list[j + 1]);
        }
        not_named(tail, id);
    }
}

proof fn detected_at(list: Seq<FrameworkView>, present: Seq<Seq<char>>, i: int)
    requires
        0 <= i <= list.len(),
        forall|j: int| 0 <= j < i ==> !in_use(#[trigger] list[j], present),
        i < list.len() ==> in_use(list[i], present),
    ensures
        detected(list, present) == if i < list.len() {
            Some(list[i])
        } else {
            None
        },
    decreases i,
{
    if i > 0 {
        let tail = list.drop_first();
        assert(!in_use(list[0], present));
        assert forall|j: int| 0 <= j < i - 1 implies !in_use(#[trigger] tail[j], present) by {
            assert(tail[j] == list[j + 1]);
        }
        detected_at(tail, present, i - 1);
    }
}

/// Asking for a framework by its name starts its own tool, whatever files the theme has.
pub proof fn known_names_start_their_tool(
    i: int,
    present: Seq<Seq<char>>,
    has_vite: bool,
    script: Option<Seq<char>>,
)
    requires
        0 <= i < known().len(),
    ensures
        launch_choice(known()[i].id, present, has_vite, script) == Some(
            LaunchView::Tool(known()[i]),
        ),
{
    ids_differ();
    assert forall|j: int| 0 <= j < i implies #[trigger] known()[j].id != known()[i].id by {
        assert(0 <= j < i < known().len());
    }
    named_at(known(), i);
}

/// Forcing Vite is asking for the framework `vite`, and starts it.
pub proof fn forcing_vite_is_asking_for_it(
    framework: Seq<char>,
    present: Seq<Seq<char>>,
    has_vite: bool,
    script: Option<Seq<char>>,
)
    ensures
        requested(true, framework) == requested(false, "vite"@),
        launch_choice(requested(true, framework), present, has_vite, script) == Some(
            LaunchView::Tool(vite_view()),
        ),
{
    assert(known()[4] == vite_view());
    known_names_start_their_tool(4, present, has_vite, script);
}

/// A request that names nothing known starts no dev server, and neither does `none`.
pub proof fn unknown_names_start_nothing(
    forced: Seq<char>,
    present: Seq<Seq<char>>,
    has_vite: bool,
    script: Option<Seq<char>>,
)
    requires
        is_unknown(forced) || forced == "none"@,
    ensures
        launch_choice(forced, present, has_vite, script) is None,
{
    if is_unknown(forced) {
        not_named(known(), forced);
    }
}

/// Left to itself, the program takes the first framework of which a file is present.
pub proof fn first_framework_in_use_is_taken(
    i: int,
    present: Seq<Seq<char>>,
    has_vite: bool,
    script: Option<Seq<char>>,
)
    requires
        0 <= i < known().len(),
        in_use(known()[i], present),
        forall|j: int| 0 <= j < i ==> !in_use(#[trigger] known()[j], present),
    ensures
        launch_choice("auto"@, present, has_vite, script) == Some(LaunchView::Tool(known()[i])),
{
    ids_differ();
    detected_at(known(), present, i);
}

/// Left to itself in a theme without a file of any framework, the program takes Vite if the package
/// depends on it, and otherwise a script of the package.
pub proof fn packages_are_looked_at_last(
    present: Seq<Seq<char>>,
    has_vite: bool,
    script: Option<Seq<char>>,
)
    requires
        forall|j: int| 0 <= j < known().len() ==> !in_use(#[trigger] known()[j], present),
    ensures
        launch_choice("auto"@, present, has_vite, script) == if has_vite {
            Some(LaunchView::Tool(vite_view()))
        } else {
            launch_choice("script"@, present, has_vite, script)
        },
{
    ids_differ();
    detected_at(known(), present, known().len() as int);
}

/// Every dev server is told its port: a tool by an argument behind its flag, a script by its
/// environment.
pub proof fn dev_servers_are_told_their_port(
    launch: LaunchView,
    port: u16,
    local_bin: Option<Seq<char>>,
    windows: bool,
)
    ensures
        ({
            let command = launch_command_view(launch, port, local_bin, windows);
            match launch {
                LaunchView::Tool(framework) => exists|i: int|
                    0 < i < command.args.len() && #[trigger] command.args[i] == decimal(
                        port as nat,
                    ) && command.args[i - 1] == framework.port_flag,
                LaunchView::Script { script } => command.port_env == Some(port),
            }
        }),
{
    if let LaunchView::Tool(framework) = launch {
        let command = launch_command_view(launch, port, local_bin, windows);
        let i = framework.args.len() + if local_bin is Some {
            1int
        } else {
            2int
        };
        assert(command.args[i] == decimal(port as nat));
        assert(command.args[i - 1] == framework.port_flag);
    }
}

/// A tool that is installed with the theme is run with all of the framework's own arguments, then
/// the port behind its flag, then the flag that makes it strict, if there is one. Left to `npx`, the
/// tool's name stands before exactly the same arguments. The environment tells no port.
pub proof fn installed_tools_get_the_same_arguments(
    framework: &Framework,
    port: u16,
    path: String,
    windows: bool,
    installed: CommandLine,
    fetched: CommandLine,
)
    requires
        call_ensures(tool_command, (framework, port, Some(path), windows), installed),
        call_ensures(tool_command, (framework, port, None, windows), fetched),
    ensures
        installed.program@ == path@,
        fetched.program@ == if windows {
            "npx.cmd"@
        } else {
            "npx"@
        },
        installed.port_env is None,
        fetched.port_env is None,
        fetched.args@.len() == installed.args@.len() + 1,
        fetched.args@[0]@ == framework.bin@,
        forall|i: int|
            0 <= i < installed.args@.len() ==> (#[trigger] installed.args@[i])@
                == fetched.args@[i + 1]@,
        installed.args@.len() >= framework.args@.len() + 2,
        forall|i: int|
            0 <= i < framework.args@.len() ==> (#[trigger] installed.args@[i])@
                == framework.args@[i]@,
        installed.args@[framework.args@.len() as int]@ == framework.port_flag@,
        installed.args@[framework.args@.len() as int + 1]@ == decimal(port as nat),
        framework.strict_port_flag matches Some(flag) ==> installed.args@.len()
            == framework.args@.len() + 3 && installed.args@[framework.args@.len() as int + 2]@ == flag@,
        framework.strict_port_flag is None ==> installed.args@.len() == framework.args@.len() + 2,
{
    let n = framework.args@.len() as int;
    let own = framework@.args;
    let local = installed@.args;
    let remote = fetched@.args;
    assert(local == tool_args(framework@, port));
    assert(remote == seq![framework@.bin] + local);
    assert(local.len() == installed.args@.len());
    assert(remote.len() == fetched.args@.len());
    assert(remote[0] == fetched.args@[0]@);
    assert forall|i: int| 0 <= i < installed.args@.len() implies (#[trigger] installed.args@[i])@
        == fetched.args@[i + 1]@ by {
        assert(local[i] == installed.args@[i]@);
        assert(remote[i + 1] == fetched.args@[i + 1]@);
    }
    assert forall|i: int| 0 <= i < n implies (#[trigger] installed.args@[i])@
        == framework.args@[i]@ by {
        assert(local[i] == installed.args@[i]@);
        assert(own[i] == framework.args@[i]@);
    }
    assert(local[n] == installed.args@[n]@);
    assert(local[n + 1] == installed.args@[n + 1]@);
    if framework.strict_port_flag is Some {
        assert(local[n + 2] == installed.args@[n + 2]@);
    }
}

/// The commands of a framework's tool, as they are started: `npx` gets the tool's name and then what
/// the installed tool gets, which begins with the framework's own arguments.
pub proof fn launches_of_tools_agree(
    framework: FrameworkView,
    port: u16,
    path: Seq<char>,
    windows: bool,
)
    ensures
        ({
            let tool = LaunchView::Tool(framework);
            let installed = launch_command_view(tool, port, Some(path), windows);
            let fetched = launch_command_view(tool, port, None, windows);
            &&& installed.program == path
            &&& fetched.program == if windows {
                "npx.cmd"@
            } else {
                "npx"@
            }
            &&& fetched.args == seq![framework.bin] + installed.args
            &&& framework.args.is_prefix_of(installed.args)
            &&& installed.port_env is None && fetched.port_env is None
        }),
{
    let installed = launch_command_view(LaunchView::Tool(framework), port, Some(path), windows);
    assert(installed.args.subrange(0, framework.args.len() as int) =~= framework.args);
}

/// A script of the package is run by `npm run`, with the port in its environment, whatever tools
/// are installed.
pub proof fn scripts_are_run_by_npm(
    launch: &Launch,
    port: u16,
    local_bin: Option<String>,
    windows: bool,
    command: CommandLine,
)
    requires
        call_ensures(launch_command, (launch, port, local_bin, windows), command),
        launch is Script,
    ensures
        command.program@ == if windows {
            "npm.cmd"@
        } else {
            "npm"@
        },
        command.args@.len() == 2,
        command.args@[0]@ == "run"@,
        command.args@[1]@ == launch->script@,
        command.port_env == Some(port),
{
    assert(command@.args.len() == 2);
    assert(command@.args[0] == command.args@[0]@);
    assert(command@.args[1] == command.args@[1]@);
}

/// What `npx` is given when a request by name starts a tool.
pub open spec fn npx_args(
    forced: Seq<char>,
    present: Seq<Seq<char>>,
    has_vite: bool,
    script: Option<Seq<char>>,
    port: u16,
    windows: bool,
) -> Option<Seq<Seq<char>>> {
    match launch_choice(forced, present, has_vite, script) {
        Some(launch) => Some(launch_command_view(launch, port, None, windows).args),
        None => None,
    }
}

/// Each framework that can be asked for by name has its own command, on every port.
pub proof fn each_framework_has_its_command(
    present: Seq<Seq<char>>,
    has_vite: bool,
    script: Option<Seq<char>>,
    port: u16,
    windows: bool,
)
    ensures
        npx_args("next"@, present, has_vite, script, port, windows) == Some(
            seq!["next"@, "dev"@, "-p"@, decimal(port as nat)],
        ),
        npx_args("nuxt"@, present, has_vite, script, port, windows) == Some(
            seq!["nuxt"@, "dev"@, "--port"@, decimal(port as nat)],
        ),
        npx_args("astro"@, present, has_vite, script, port, windows) == Some(
            seq!["astro"@, "dev"@, "--port"@, decimal(port as nat)],
        ),
        npx_args("svelte"@, present, has_vite, script, port, windows) == Some(
            seq!["vite"@, "--port"@, decimal(port as nat), "--strictPort"@],
        ),
        npx_args("vite"@, present, has_vite, script, port, windows) == Some(
            seq!["vite"@, "--port"@, decimal(port as nat), "--strictPort"@],
        ),
        npx_args("vue-cli"@, present, has_vite, script, port, windows) == Some(
            seq!["vue-cli-service"@, "serve"@, "--port"@, decimal(port as nat)],
        ),
        npx_args("webpack"@, present, has_vite, script, port, windows) == Some(
            seq!["webpack"@, "serve"@, "--port"@, decimal(port as nat)],
        ),
        npx_args("angular"@, present, has_vite, script, port, windows) == Some(
            seq!["ng"@, "serve"@, "--port"@, decimal(port as nat)],
        ),
{
    known_names_start_their_tool(0, present, has_vite, script);
    assert(known()[0].id == "next"@);
    assert(npx_args("next"@, present, has_vite, script, port, windows)->0 =~= seq![
        "next"@,
        "dev"@,
        "-p"@,
        decimal(port as nat),
    ]);
    known_names_start_their_tool(1, present, has_vite, script);
    assert(known()[1].id == "nuxt"@);
    assert(npx_args("nuxt"@, present, has_vite, script, port, windows)->0 =~= seq![
        "nuxt"@,
        "dev"@,
        "--port"@,
        decimal(port as nat),
    ]);
    known_names_start_their_tool(2, present, has_vite, script);
    assert(known()[2].id == "astro"@);
    assert(npx_args("astro"@, present, has_vite, script, port, windows)->0 =~= seq![
        "astro"@,
        "dev"@,
        "--port"@,
        decimal(port as nat),
    ]);
    known_names_start_their_tool(3, present, has_vite, script);
    assert(known()[3].id == "svelte"@);
    assert(npx_args("svelte"@, present, has_vite, script, port, windows)->0 =~= seq![
        "vite"@,
        "--port"@,
        decimal(port as nat),
        "--strictPort"@,
    ]);
    known_names_start_their_tool(4, present, has_vite, script);
    assert(known()[4].id == "vite"@);
    assert(npx_args("vite"@, present, has_vite, script, port, windows)->0 =~= seq![
        "vite"@,
        "--port"@,
        decimal(port as nat),
        "--strictPort"@,
    ]);
    known_names_start_their_tool(5, present, has_vite, script);
    assert(known()[5].id == "vue-cli"@);
    assert(npx_args("vue-cli"@, present, has_vite, script, port, windows)->0 =~= seq![
        "vue-cli-service"@,
        "serve"@,
        "--port"@,
        decimal(port as nat),
    ]);
    known_names_start_their_tool(6, present, has_vite, script);
    assert(known()[6].id == "webpack"@);
    assert(npx_args("webpack"@, present, has_vite, script, port, windows)->0 =~= seq![
        "webpack"@,
        "serve"@,
        "--port"@,
        decimal(port as nat),
    ]);
    known_names_start_their_tool(7, present, has_vite, script);
    assert(known()[7].id == "angular"@);
    assert(npx_args("angular"@, present, has_vite, script, port, windows)->0 =~= seq![
        "ng"@,
        "serve"@,
        "--port"@,
        decimal(port as nat),
    ]);
}

/// Each framework shows by its own files, in whatever company they stand.
pub proof fn each_framework_shows_by_its_files(present: Seq<Seq<char>>)
    ensures
        known().len() == 8,
        known()[0].id == "next"@,
        known()[1].id == "nuxt"@,
        known()[2].id == "astro"@,
        known()[3].id == "svelte"@,
        known()[4].id == "vite"@,
        known()[5].id == "vue-cli"@,
        known()[6].id == "webpack"@,
        known()[7].id == "angular"@,
        in_use(known()[0], present) <==> {
            ||| present.contains("next.config.js"@)
            ||| present.contains("next.config.mjs"@)
            ||| present.contains("next.config.ts"@)
            ||| present.contains("next.config.cjs"@)
        },
        in_use(known()[1], present) <==> {
            ||| present.contains("nuxt.config.js"@)
            ||| present.contains("nuxt.config.ts"@)
            ||| present.contains("nuxt.config.mjs"@)
        },
        in_use(known()[2], present) <==> {
            ||| present.contains("astro.config.js"@)
            ||| present.contains("astro.config.ts"@)
            ||| present.contains("astro.config.mjs"@)
        },
        in_use(known()[3], present) <==> {
            ||| present.contains("svelte.config.js"@)
            ||| present.contains("svelte.config.ts"@)
        },
        in_use(known()[4], present) <==> {
            ||| present.contains("vite.config.js"@)
            ||| present.contains("vite.config.mjs"@)
            ||| present.contains("vite.config.ts"@)
            ||| present.contains("vite.config.mts"@)
            ||| present.contains("vite.config.cjs"@)
            ||| present.contains("vite.config.cts"@)
        },
        in_use(known()[5], present) <==> {
            ||| present.contains("vue.config.js"@)
            ||| present.contains("vue.config.ts"@)
        },
        in_use(known()[6], present) <==> {
            ||| present.contains("webpack.config.js"@)
            ||| present.contains("webpack.config.ts"@)
            ||| present.contains("webpack.config.mjs"@)
        },
        in_use(known()[7], present) <==> {
            ||| present.contains("angular.json"@)
        },
{
    assert(known()[0].detect[0] == "next.config.js"@);
    assert(known()[0].detect[1] == "next.config.mjs"@);
    assert(known()[0].detect[2] == "next.config.ts"@);
    assert(known()[0].detect[3] == "next.config.cjs"@);
    assert(known()[1].detect[0] == "nuxt.config.js"@);
    assert(known()[1].detect[1] == "nuxt.config.ts"@);
    assert(known()[1].detect[2] == "nuxt.config.mjs"@);
    assert(known()[2].detect[0] == "astro.config.js"@);
    assert(known()[2].detect[1] == "astro.config.ts"@);
    assert(known()[2].detect[2] == "astro.config.mjs"@);
    assert(known()[3].detect[0] == "svelte.config.js"@);
    assert(known()[3].detect[1] == "svelte.config.ts"@);
    assert(known()[4].detect[0] == "vite.config.js"@);
    assert(known()[4].detect[1] == "vite.config.mjs"@);
    assert(known()[4].detect[2] == "vite.config.ts"@);
    assert(known()[4].detect[3] == "vite.config.mts"@);
    assert(known()[4].detect[4] == "vite.config.cjs"@);
    assert(known()[4].detect[5] == "vite.config.cts"@);
    assert(known()[5].detect[0] == "vue.config.js"@);
    assert(known()[5].detect[1] == "vue.config.ts"@);
    assert(known()[6].detect[0] == "webpack.config.js"@);
    assert(known()[6].detect[1] == "webpack.config.ts"@);
    assert(known()[6].detect[2] == "webpack.config.mjs"@);
    assert(known()[7].detect[0] == "angular.json"@);
}

/// A package depends on another if either of its two lists of dependencies, where it is an object,
/// has a member of that name.
pub proof fn dependencies_stand_in_two_lists(
    members: Map<Seq<char>, DocView>,
    name: Seq<char>,
    list: Map<Seq<char>, DocView>,
)
    ensures
        members.contains_key("dependencies"@) && members["dependencies"@] == DocView::Members(list)
            && list.contains_key(name) ==> depends_on(DocView::Members(members), name),
        members.contains_key("devDependencies"@) && members["devDependencies"@]
            == DocView::Members(list) && list.contains_key(name) ==> depends_on(
            DocView::Members(members),
            name,
        ),
        depends_on(DocView::Members(members), name) ==> {
            ||| members.contains_key("dependencies"@) && (members["dependencies"@] matches
                DocView::Members(l) && l.contains_key(name))
            ||| members.contains_key("devDependencies"@) && (members["devDependencies"@] matches
                DocView::Members(l) && l.contains_key(name))
        },
        !depends_on(DocView::Other, name),
{
}

/// Of the scripts of a package `dev` comes first, `start` second and `serve` last; no other script
/// is run.
pub proof fn dev_scripts_come_in_order(
    members: Map<Seq<char>, DocView>,
    scripts: Map<Seq<char>, DocView>,
)
    ensures
        members.contains_key("scripts"@) && members["scripts"@] == DocView::Members(scripts) ==> {
            let script = dev_script(DocView::Members(members));
            &&& scripts.contains_key("dev"@) ==> script == Some("dev"@)
            &&& !scripts.contains_key("dev"@) && scripts.contains_key("start"@) ==> script == Some(
                "start"@,
            )
            &&& !scripts.contains_key("dev"@) && !scripts.contains_key("start"@)
                && scripts.contains_key("serve"@) ==> script == Some("serve"@)
            &&& !scripts.contains_key("dev"@) && !scripts.contains_key("start"@)
                && !scripts.contains_key("serve"@) ==> script is None
        },
        !members.contains_key("scripts"@) ==> dev_script(DocView::Members(members)) is None,
{
}

/// A theme whose `package.json` is missing or not well-formed starts the framework whose files it
/// has, and nothing if it has none.
pub proof fn themes_without_a_package_start_by_files(
    forced: &str,
    present: &Vec<String>,
    launch: Option<Launch>,
)
    requires
        call_ensures(resolve, (forced, present, None), launch),
    ensures
        opt_launch(launch) == launch_choice(forced@, texts(present@), false, None),
        present@.len() == 0 && forced@ == "auto"@ ==> launch is None,
        forced@ == "none"@ || forced@ == "script"@ ==> launch is None,
{
    ids_differ();
    assert(texts(present@).len() == present@.len());
    if present@.len() == 0 && forced@ == "auto"@ {
        assert forall|j: int| 0 <= j < known().len() implies !in_use(
            #[trigger] known()[j],
            texts(present@),
        ) by {
            assert(forall|name: Seq<char>| !texts(present@).contains(name));
        }
        packages_are_looked_at_last(texts(present@), false, None);
    }
}

/// Asked for a script, or left to itself without a framework, the program runs the script that the
/// package has, and starts nothing without one.
pub proof fn scripts_are_run_as_the_package_has_them(
    present: Seq<Seq<char>>,
    has_vite: bool,
    name: Seq<char>,
)
    ensures
        launch_choice("script"@, present, has_vite, Some(name)) == Some(
            LaunchView::Script { script: name },
        ),
        launch_choice("script"@, present, has_vite, None) is None,
        (forall|j: int| 0 <= j < known().len() ==> !in_use(#[trigger] known()[j], present))
            ==> launch_choice("auto"@, present, false, Some(name)) == Some(
            LaunchView::Script { script: name },
        ),
{
    ids_differ();
    if forall|j: int| 0 <= j < known().len() ==> !in_use(#[trigger] known()[j], present) {
        packages_are_looked_at_last(present, false, Some(name));
    }
}

/// The file of an installed tool with the extension `cmd` is run on Windows and nowhere else.
pub proof fn cmd_files_are_run_on_windows(
    windows: bool,
    cmd_exists: bool,
    plain_exists: bool,
    bin: Option<LocalBin>,
)
    requires
        call_ensures(local_bin, (windows, cmd_exists, plain_exists), bin),
    ensures
        bin == Some(LocalBin::Cmd) <==> windows && cmd_exists,
        bin == Some(LocalBin::Plain) <==> plain_exists && !(windows && cmd_exists),
        bin is None <==> !plain_exists && !(windows && cmd_exists),
{
}

/// A launch is called after its framework, or after its script.
pub proof fn launches_are_called_after_what_they_start(launch: &Launch, name: String)
    requires
        call_ensures(Launch::name, (launch,), name),
    ensures
        launch matches Launch::Tool(framework) ==> name@ == framework.id@,
        launch matches Launch::Script { script } ==> name@ == "package.json script \""@ + script@
            + "\""@,
{
}

/// What a well-formed `package.json` says of dependencies and scripts decides, with the files that
/// are present, how the dev server is started.
pub proof fn packages_are_read_for_vite_and_scripts(
    forced: &str,
    present: &Vec<String>,
    content: &str,
    launch: Option<Launch>,
    depends: bool,
    name: &str,
    script: Option<String>,
)
    requires
        call_ensures(resolve, (forced, present, Some(content)), launch),
        call_ensures(package_has_dep, (Some(content), name), depends),
        call_ensures(detect_script, (Some(content),), script),
    ensures
        json_text(content@) matches Some(package) ==> opt_launch(launch) == launch_choice(
            forced@,
            texts(present@),
            depends_on(package, "vite"@),
            dev_script(package),
        ),
        json_text(content@) matches Some(package) ==> depends == depends_on(package, name@),
        json_text(content@) matches Some(package) ==> opt_text(script) == dev_script(package),
        json_text(content@) is None ==> !depends && script is None && opt_launch(launch)
            == launch_choice(forced@, texts(present@), false, None),
{
}

/// The choice of a launch follows from the request, the files, and what the package says.
pub proof fn choices_follow_from_what_is_known(
    forced: &str,
    present: &Vec<String>,
    has_vite: bool,
    script: Option<String>,
    launch: Option<Launch>,
)
    requires
        call_ensures(choose_launch, (forced, present, has_vite, script), launch),
    ensures
        opt_launch(launch) == launch_choice(forced@, texts(present@), has_vite, opt_text(script)),
        launch matches Some(Launch::Tool(framework)) ==> framework@.id == forced@ || forced@
            == "auto"@,
        launch matches Some(Launch::Script { script: s }) ==> opt_text(script) == Some(s@),
{
    if launch matches Some(Launch::Tool(framework)) {
        if forced@ != "auto"@ {
            named_is_named(known(), forced@);
        }
    }
}

proof fn named_is_named(list: Seq<FrameworkView>, id: Seq<char>)
    ensures
        named(list, id) matches Some(framework) ==> framework.id == id,
    decreases list.len(),
{
    if list.len() > 0 && list[0].id != id {
        named_is_named(list.drop_first(), id);
    }
}

/// A request is warned of if and only if it is none of the names that are known.
pub proof fn only_unknown_names_are_warned_of(forced: &str, warning: Option<String>)
    requires
        call_ensures(unknown_framework, (forced,), warning),
    ensures
        warning is None <==> {
            ||| forced@ == "none"@
            ||| forced@ == "auto"@
            ||| forced@ == "script"@
            ||| forced@ == "next"@
            ||| forced@ == "nuxt"@
            ||| forced@ == "astro"@
            ||| forced@ == "svelte"@
            ||| forced@ == "vite"@
            ||| forced@ == "vue-cli"@
            ||| forced@ == "webpack"@
            ||| forced@ == "angular"@
        },
        warning matches Some(w) ==> w@ == "警告: 未知框架 '"@ + forced@ + "', 使用静态模式"@,
{
    each_framework_shows_by_its_files(seq![]);
    if is_unknown(forced@) {
        assert(known()[0].id != forced@ && known()[1].id != forced@ && known()[2].id != forced@);
        assert(known()[3].id != forced@ && known()[4].id != forced@ && known()[5].id != forced@);
        assert(known()[6].id != forced@ && known()[7].id != forced@);
    }
}

/// A command is told as it is typed: the program and its arguments, with a space before each.
pub proof fn commands_are_told_as_typed(command: &CommandLine, text: String)
    requires
        call_ensures(CommandLine::describe, (command,), text),
    ensures
        text@ == command.program@ + " "@ + joined(texts(command.args@), " "@),
{
}

} // verus!
