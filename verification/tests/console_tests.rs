use kanyu_shell::console::{
    command_call, command_lines, layers_lines, parse_command, reply_without_host, ConsoleCommand,
    ConsoleLine, ConsolePanel, HostReply, HostRequest, LineKind, HELP_TEXT,
};

/// A stand-in for the application: records loads and answers fixed results.
struct FakeHost {
    loaded: Vec<String>,
}

impl FakeHost {
    fn host_load(&mut self, path: &str) -> Result<String, String> {
        self.loaded.push(path.to_string());
        Ok(format!("已加载 {path}（4 要素，geojson）"))
    }
    fn host_layers(&self) -> Vec<(String, String, usize)> {
        vec![("buildings".into(), "geojson".into(), 4)]
    }
    fn host_info(&self, id: &str) -> Result<String, String> {
        Ok(format!("图层 {id}: 4 要素"))
    }
    fn host_query(&mut self, _id: &str, _e: &str) -> Result<String, String> {
        Ok("已生成图层 q_buildings（2 要素）".to_string())
    }
    fn host_buffer(&mut self, _id: &str, _d: f64) -> Result<String, String> {
        Ok("已生成图层 buf（4 要素）".to_string())
    }
    fn host_measure(&self, _id: &str, _k: &str) -> Result<String, String> {
        Err("图层无长度".to_string())
    }
    fn host_topology(&self, _id: &str) -> Result<String, String> {
        Ok("0 条违规".to_string())
    }
    fn host_reproject(&mut self, _id: &str, _f: &str, _t: &str) -> Result<String, String> {
        Ok("已生成图层 rp（4 要素）".to_string())
    }
    fn host_export(&self, _id: &str, _o: &str, _f: &str) -> Result<String, String> {
        Ok("已导出 4 要素".to_string())
    }
}

/// Carries out one request on the stand-in host (the float reading of the
/// buffer distance is the application's part).
fn perform(host: &mut FakeHost, req: HostRequest) -> HostReply {
    match req {
        HostRequest::Load(p) => HostReply::Outcome(host.host_load(&p)),
        HostRequest::Layers => HostReply::Layers(host.host_layers()),
        HostRequest::Info(id) => HostReply::Outcome(host.host_info(&id)),
        HostRequest::Query { id, expr } => HostReply::Outcome(host.host_query(&id, &expr)),
        HostRequest::Buffer { id, distance } => match distance.parse::<f64>() {
            Ok(d) if d.is_finite() && d != 0.0 => HostReply::Outcome(host.host_buffer(&id, d)),
            _ => HostReply::BadDistance,
        },
        HostRequest::Measure { id, kind } => HostReply::Outcome(host.host_measure(&id, &kind)),
        HostRequest::Topology(id) => HostReply::Outcome(host.host_topology(&id)),
        HostRequest::Reproject { id, from, to } => {
            HostReply::Outcome(host.host_reproject(&id, &from, &to))
        }
        HostRequest::Export { id, out, fmt } => HostReply::Outcome(host.host_export(&id, &out, &fmt)),
        HostRequest::Fit | HostRequest::ToggleTheme => HostReply::Done,
    }
}

/// Runs one command line: the library decides the request and the lines.
fn run_command(host: &mut FakeHost, cmd: &str) -> Vec<ConsoleLine> {
    let c = parse_command(cmd);
    let reply = match command_call(&c) {
        Some(req) => perform(host, req),
        None => HostReply::Done,
    };
    command_lines(&c, reply)
}

#[test]
fn help_lists_commands() {
    let mut host = FakeHost { loaded: vec![] };
    let out = run_command(&mut host, "help");
    assert!(out[0].text.contains("buffer"));
    assert!(out[0].text.contains("reproject"));
}

#[test]
fn load_roundtrip_and_error() {
    let mut host = FakeHost { loaded: vec![] };
    let out = run_command(&mut host, "load examples/buildings.geojson");
    assert_eq!(host.loaded.len(), 1);
    assert!(out[0].text.contains("已加载"));
    let out = run_command(&mut host, "load");
    assert_eq!(out[0].kind, LineKind::Error);
}

#[test]
fn query_joins_expression_with_spaces() {
    let mut host = FakeHost { loaded: vec![] };
    let out = run_command(&mut host, "query buildings height > 50");
    assert!(out[0].text.contains("2 要素"));
    let out = run_command(&mut host, "measure buildings length");
    assert_eq!(out[0].kind, LineKind::Error);
    let out = run_command(&mut host, "frobnicate");
    assert!(out[0].text.contains("未知命令"));
}

#[test]
fn parse_command_shapes() {
    match parse_command("  query   roads  width >= 3   and  lanes = 2 ") {
        ConsoleCommand::Query { id, expr } => {
            assert_eq!(id, "roads");
            assert_eq!(expr, "width >= 3 and lanes = 2");
        }
        _ => panic!("应为 Query"),
    }
    match parse_command("export roads out/roads.fgb") {
        ConsoleCommand::Export { id, out, fmt } => {
            assert_eq!((id.as_str(), out.as_str(), fmt.as_str()), ("roads", "out/roads.fgb", "fgb"));
        }
        _ => panic!("应为 Export"),
    }
    match parse_command("export roads out/roads geojson") {
        ConsoleCommand::Export { fmt, .. } => assert_eq!(fmt, "geojson"),
        _ => panic!("应为 Export"),
    }
    match parse_command("buffer roads 2.5") {
        ConsoleCommand::Buffer { id, distance } => {
            assert_eq!(id, "roads");
            assert_eq!(distance, "2.5");
        }
        _ => panic!("应为 Buffer"),
    }
    assert!(matches!(parse_command(""), ConsoleCommand::Empty));
    assert!(matches!(parse_command("?"), ConsoleCommand::Help));
    assert!(matches!(parse_command("cls"), ConsoleCommand::Clear));
    assert!(matches!(parse_command("layers extra"), ConsoleCommand::Layers));
    match parse_command("reproject a EPSG:4326") {
        ConsoleCommand::Usage(u) => assert_eq!(u, "reproject <图层id> <from> <to>"),
        _ => panic!("应为 Usage"),
    }
}

#[test]
fn usage_and_unknown_lines() {
    let out = reply_without_host(&parse_command("info")).unwrap();
    assert_eq!(out[0].kind, LineKind::Error);
    assert_eq!(out[0].text, "用法: info <图层id>（输入 help 查看全部命令）");
    let out = reply_without_host(&parse_command("zap 1")).unwrap();
    assert_eq!(out[0].text, "未知命令: zap（输入 help 查看全部命令）");
    let out = reply_without_host(&parse_command("help")).unwrap();
    assert_eq!(out[0].text, HELP_TEXT);
    assert_eq!(out[0].kind, LineKind::Output);
    let mut host = FakeHost { loaded: vec![] };
    let out = run_command(&mut host, "buffer buildings 0");
    assert_eq!(out[0].text, "距离须为非零数值: 0");
}

#[test]
fn layers_listing_is_padded() {
    let out = layers_lines(&vec![("roads".to_string(), "shp".to_string(), 12)]);
    assert_eq!(out.len(), 1);
    assert_eq!(out[0].text, format!("{:<24} {:<10} {} 要素", "roads", "shp", 12));
    let none = layers_lines(&vec![]);
    assert_eq!(none[0].text, "（无图层；load <路径> 加载）");
}

#[test]
fn history_navigation_walks_back_and_forth() {
    let mut p = ConsolePanel::default();
    for cmd in ["layers", "fit", "theme"] {
        let c = p.begin_execute(cmd);
        assert!(c.is_some());
        let out = reply_without_host(&c.unwrap()).unwrap_or_default();
        p.finish_execute(out);
    }
    p.history_up();
    assert_eq!(p.input, "theme");
    p.history_up();
    assert_eq!(p.input, "fit");
    p.history_down();
    assert_eq!(p.input, "theme");
    p.history_down();
    assert_eq!(p.input, "");
}

#[test]
fn requests_and_lines_per_command() {
    assert!(command_call(&parse_command("help")).is_none());
    assert!(command_call(&parse_command("frobnicate")).is_none());
    assert!(matches!(command_call(&parse_command("fit")), Some(HostRequest::Fit)));
    assert!(matches!(command_call(&parse_command("theme")), Some(HostRequest::ToggleTheme)));
    match command_call(&parse_command("reproject a EPSG:4326 EPSG:3857")) {
        Some(HostRequest::Reproject { id, from, to }) => {
            assert_eq!((id.as_str(), from.as_str(), to.as_str()), ("a", "EPSG:4326", "EPSG:3857"))
        }
        _ => panic!("expected a reprojection"),
    }
    let c = parse_command("info roads");
    let out = command_lines(&c, HostReply::Outcome(Err("无此图层".into())));
    assert_eq!(out.len(), 1);
    assert_eq!(out[0].kind, LineKind::Error);
    assert_eq!(out[0].text, "无此图层");
    assert!(command_lines(&c, HostReply::Done).is_empty());
    let out = command_lines(&parse_command("fit"), HostReply::Done);
    assert_eq!(out[0].text, "已缩放到数据范围");
    let out = command_lines(&parse_command("layers"), HostReply::Layers(vec![]));
    assert_eq!(out[0].text, "（无图层；load <路径> 加载）");
    let out = command_lines(&parse_command("buffer roads x"), HostReply::BadDistance);
    assert_eq!(out[0].text, "距离须为非零数值: x");
}
