use kanyu_shell::ai::{
    build_context, export_reply, extract_path_like, fallback_reply, layers_reply, load_reply,
    measure_reply, remote_reply, reply_from_content, reply_from_response, AiChatPanel, AiDriver, AiSettings, ChatMsg,
    LocalDriver, OpenAiDriver, ParsedIntent, SendStep,
};

fn layers() -> Vec<String> {
    vec!["buildings".to_string(), "roads".to_string()]
}

#[test]
fn parse_buffer_with_layer_and_distance() {
    match LocalDriver::parse("缓冲 buildings 500", &layers()) {
        ParsedIntent::Buffer { layer, distance } => {
            assert_eq!(layer, "buildings");
            assert_eq!(distance.parse::<f64>().unwrap(), 500.0);
        }
        other => panic!("应为 Buffer: {other:?}"),
    }
    match LocalDriver::parse("给 roads 做 200 米缓冲区", &layers()) {
        ParsedIntent::Buffer { layer, distance } => {
            assert_eq!(layer, "roads");
            assert_eq!(distance.parse::<f64>().unwrap(), 200.0);
        }
        other => panic!("应为 Buffer: {other:?}"),
    }
}

#[test]
fn parse_load_and_layers_and_measure() {
    match LocalDriver::parse("打开 examples/buildings.geojson", &layers()) {
        ParsedIntent::Load(p) => assert_eq!(p, "examples/buildings.geojson"),
        other => panic!("应为 Load: {other:?}"),
    }
    assert!(matches!(LocalDriver::parse("有哪些图层", &layers()), ParsedIntent::Layers));
    match LocalDriver::parse("量面积 buildings", &layers()) {
        ParsedIntent::Measure { kind, .. } => assert_eq!(kind, "area"),
        other => panic!("应为 Measure: {other:?}"),
    }
}

#[test]
fn parse_fallback_and_buffer_without_layer() {
    assert!(matches!(LocalDriver::parse("今天天气如何", &layers()), ParsedIntent::Fallback));
    let one = vec!["solo".to_string()];
    match LocalDriver::parse("缓冲 300", &one) {
        ParsedIntent::Buffer { layer, distance } => {
            assert_eq!(layer, "solo");
            assert_eq!(distance.parse::<f64>().unwrap(), 300.0);
        }
        other => panic!("应自动补全唯一图层: {other:?}"),
    }
    assert!(matches!(LocalDriver::parse("缓冲 300", &layers()), ParsedIntent::Advice(_)));
}

#[test]
fn parse_rules_in_order() {
    // The longest layer id named wins.
    let ls = vec!["road".to_string(), "roads_main".to_string()];
    match LocalDriver::parse("buffer roads_main 12.5", &ls) {
        ParsedIntent::Buffer { layer, distance } => {
            assert_eq!(layer, "roads_main");
            assert_eq!(distance, "12.5");
        }
        other => panic!("{other:?}"),
    }
    // A number after the keyword is preferred over an earlier one.
    match LocalDriver::parse("roads 7 缓冲 40", &layers()) {
        ParsedIntent::Buffer { distance, .. } => assert_eq!(distance, "40"),
        other => panic!("{other:?}"),
    }
    // Two dots do not make a number.
    assert!(matches!(LocalDriver::parse("缓冲 1.2.3 roads", &layers()), ParsedIntent::Fallback));
    // Quotes around a path are dropped.
    match LocalDriver::parse("load 'data/a.shp'", &layers()) {
        ParsedIntent::Load(p) => assert_eq!(p, "data/a.shp"),
        other => panic!("{other:?}"),
    }
    // Export needs a named layer and a path-like word.
    match LocalDriver::parse("导出 roads out/roads.fgb", &layers()) {
        ParsedIntent::Export { layer, out } => {
            assert_eq!(layer, "roads");
            assert_eq!(out, "out/roads.fgb");
        }
        other => panic!("{other:?}"),
    }
    match LocalDriver::parse("量长度 roads", &layers()) {
        ParsedIntent::Measure { layer, kind } => {
            assert_eq!(layer, "roads");
            assert_eq!(kind, "length");
        }
        other => panic!("{other:?}"),
    }
    assert!(matches!(LocalDriver::parse("  help  ", &layers()), ParsedIntent::Help));
    assert!(matches!(LocalDriver::parse("你会什么", &layers()), ParsedIntent::Help));
    assert!(matches!(LocalDriver::parse("图层缓冲", &layers()), ParsedIntent::Fallback));
}

#[test]
fn path_like_words() {
    assert_eq!(extract_path_like("导出 roads to out/r.geojson now"), Some("out/r.geojson"));
    assert_eq!(extract_path_like("a.b_c d.shp"), Some("d.shp"));
    assert_eq!(extract_path_like("v1.longextension11"), None);
    assert_eq!(extract_path_like("no dots here"), None);
    assert_eq!(extract_path_like("trailing."), Some("trailing."));
}

#[test]
fn settings_defaults() {
    let s = AiSettings::default();
    assert_eq!(s.driver, "local");
    assert_eq!(s.base_url, "https://api.openai.com/v1");
    assert_eq!(s.api_key, "");
    assert_eq!(s.model, "gpt-4o-mini");
}

#[test]
fn local_driver_answers_with_a_hint() {
    let mut d = LocalDriver;
    assert_eq!(d.name(), "本地规则（离线）");
    assert_eq!(d.chat(&[], "").unwrap(), "（本地规则：请通过面板的意图分派执行）");
}

fn msg(role: &str, content: &str) -> ChatMsg {
    ChatMsg { role: role.to_string(), content: content.to_string() }
}

#[test]
fn remote_request_shape() {
    let d = OpenAiDriver {
        base_url: "https://example.com/v1//".to_string(),
        api_key: "sk-test".to_string(),
        model: "m".to_string(),
    };
    let history: Vec<ChatMsg> = (0..25).map(|i| msg("user", &format!("q{i}"))).collect();
    let q = d.request(&history, "ctx").unwrap();
    assert_eq!(q.url, "https://example.com/v1/chat/completions");
    assert_eq!(q.authorization, "Bearer sk-test");
    assert_eq!(q.model, "m");
    assert_eq!(q.messages.len(), 21);
    assert_eq!((q.messages[0].role.as_str(), q.messages[0].content.as_str()), ("system", "ctx"));
    assert_eq!(q.messages[1].content, "q5");
    assert_eq!(q.messages[20].content, "q24");
    let blank = OpenAiDriver { api_key: "  ".to_string(), ..d };
    assert_eq!(blank.request(&history, "ctx").unwrap_err(), "未配置 API Key（点右上角齿轮进入 AI 设置）");
    assert_eq!(blank.display_name(), "OpenAI 兼容端点");
}

#[test]
fn remote_reply_texts() {
    assert_eq!(reply_from_content(Some("hi".to_string()), "{}").unwrap(), "hi");
    let long = "x".repeat(300);
    let e = reply_from_content(None, &long).unwrap_err();
    assert_eq!(e, format!("响应缺少 choices[0].message.content: {}", "x".repeat(200)));
    assert_eq!(remote_reply(Ok("ok".to_string())), "ok");
    assert_eq!(remote_reply(Err("超时".to_string())), "远程驱动失败: 超时（可切回 local 驱动）");
}

#[test]
fn local_replies() {
    assert_eq!(
        layers_reply(&vec![]),
        "当前没有图层。可以「打开 examples/buildings.geojson」加载示例。"
    );
    let list = vec![
        ("buildings".to_string(), "geojson".to_string(), 4usize),
        ("roads".to_string(), "shp".to_string(), 12usize),
    ];
    assert_eq!(
        layers_reply(&list),
        "当前 2 个图层：\n· buildings（geojson，4 要素）\n· roads（shp，12 要素）"
    );
    assert_eq!(
        fallback_reply(&layers()),
        "我还没听懂。当前图层：buildings, roads。可以说「缓冲 buildings 500」「量面积 buildings」或「有哪些图层」。"
    );
    assert!(fallback_reply(&[]).starts_with("我还没听懂。先「打开"));
    assert_eq!(load_reply("a.shp", Ok("3 要素".to_string())), "已执行：load a.shp。3 要素");
    assert_eq!(load_reply("a.shp", Err("无此文件".to_string())), "打开失败: 无此文件");
    assert_eq!(measure_reply("area", Ok("12 m²".to_string())), "area 度量结果：\n12 m²");
    assert_eq!(measure_reply("area", Err("x".to_string())), "度量失败: x");
    assert_eq!(export_reply("r", "o.fgb", Ok("ok".to_string())), "已执行：export r → o.fgb。ok");
    assert_eq!(export_reply("r", "o.fgb", Err("e".to_string())), "导出失败: e");
    assert_eq!(
        build_context(&list),
        "你是堪舆（Kanyu）GIS 系统的 AI 助手\"堪舆灵\"。当前数据现场图层: buildings(geojson,4要素), roads(shp,12要素)。用户可让你执行空间操作；你只能建议使用这些命令（不要假装已执行）：buffer/overlay/topology/sjoin/zonal_stats/measure/reproject/export。用简洁中文回答，涉及命令时给出确切的命令文本。"
    );
    assert!(build_context(&vec![]).contains("当前数据现场图层: （无图层）。"));
}

#[test]
fn panel_send_flow() {
    let mut p = AiChatPanel::new(AiSettings::default());
    assert_eq!(p.history.len(), 1);
    assert_eq!(p.history[0].role, "assistant");
    assert!(matches!(p.begin_send("   ", &layers()), SendStep::Nothing));
    assert_eq!(p.history.len(), 1);
    match p.begin_send("  有哪些图层 ", &layers()) {
        SendStep::Local(ParsedIntent::Layers) => {}
        _ => panic!("应为本地 Layers"),
    }
    assert_eq!(p.history[1].content, "有哪些图层");
    p.finish_send("当前没有图层。".to_string());
    assert_eq!(p.history.len(), 3);
    assert_eq!(p.history[2].role, "assistant");
    p.settings.driver = "openai".to_string();
    assert_eq!(p.driver_label(), "驱动: OpenAI 兼容端点（gpt-4o-mini）");
    match p.begin_send("hello", &layers()) {
        SendStep::Remote(d) => assert_eq!(d.model, "gpt-4o-mini"),
        _ => panic!("应走远程"),
    }
    assert!(p.busy);
    p.finish_send(remote_reply(Err("断网".to_string())));
    assert!(!p.busy);
    p.settings_saved(Err("磁盘满".to_string()));
    assert_eq!(p.note.as_deref(), Some("设置保存失败: 磁盘满"));
    p.toggle_settings();
    assert!(p.show_settings);
    p.settings_saved(Ok(()));
    assert!(!p.show_settings);
    assert_eq!(p.note.as_deref(), Some("设置已保存"));
    p.input = " x ".to_string();
    assert!(p.should_send(false, true));
    assert_eq!(p.take_input(), " x ");
    assert!(!p.should_send(false, true));
    assert!(p.should_send(true, false));
}

#[test]
fn digits_in_a_path_do_not_ask_for_a_buffer() {
    match LocalDriver::parse("打开 data2/a.geojson", &layers()) {
        ParsedIntent::Load(p) => assert_eq!(p, "data2/a.geojson"),
        other => panic!("expected a load, got {other:?}"),
    }
    match LocalDriver::parse("给 roads 做 200 米缓冲区", &layers()) {
        ParsedIntent::Buffer { layer, distance } => {
            assert_eq!(layer, "roads");
            assert_eq!(distance, "200");
        }
        other => panic!("expected a buffer, got {other:?}"),
    }
    assert!(matches!(LocalDriver::parse("roads 有 3 条", &layers()), ParsedIntent::Layers | ParsedIntent::Fallback));
}

#[test]
fn reply_from_a_response_body() {
    let ok = r#"{"choices":[{"message":{"role":"assistant","content":"你好"}}]}"#;
    assert_eq!(reply_from_response(ok).unwrap(), "你好");
    let missing = r#"{"choices":[]}"#;
    assert_eq!(
        reply_from_response(missing).unwrap_err(),
        format!("响应缺少 choices[0].message.content: {missing}")
    );
    let not_text = r#"{"choices":[{"message":{"content":3}}]}"#;
    assert!(reply_from_response(not_text).unwrap_err().starts_with("响应缺少"));
    let e = reply_from_response("not json").unwrap_err();
    assert!(e.starts_with("响应非合法 JSON: "));
    assert!(e.len() > "响应非合法 JSON: ".len());
}
