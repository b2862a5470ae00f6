//! Terminal panel: output history, command history navigation, and the command
//! language (`load`, `query`, `buffer`, …) parsed into commands that the
//! application executes against its data.

use vstd::prelude::*;

use crate::text::{
    after_last, after_last_seq, dec_seq, join_seq, pad_right_seq, push_decimal, push_padded,
    split_whitespace, split_ws, str_eq, trim, trim_seq, views,
};

verus! {

/// Kind of an output line (decides its colour).
#[derive(Clone, Copy, PartialEq, Eq, Debug, Structural)]
pub enum LineKind {
    /// Command echo (`kanyu> ...`).
    Cmd,
    /// Normal output (`Ok` is a prelude name, hence `Output`).
    Output,
    /// Error output (`Err` is a prelude name, hence `Error`).
    Error,
    /// System notice.
    Info,
}

/// One output line.
pub struct ConsoleLine {
    /// Line kind.
    pub kind: LineKind,
    /// Text.
    pub text: String,
}

/// Most output lines kept; older ones are dropped.
pub const MAX_LINES: usize = 2000;

/// Terminal state: input box, output history, command history and the
/// position of history navigation.
pub struct ConsolePanel {
    /// Current input.
    pub input: String,
    /// Output lines (with command echoes).
    pub lines: Vec<ConsoleLine>,
    /// Commands entered, oldest first.
    pub cmd_history: Vec<String>,
    /// History navigation position (`None` = not navigating).
    pub nav: Option<usize>,
}

/// The texts of a list of lines.
pub open spec fn line_texts(v: Seq<ConsoleLine>) -> Seq<Seq<char>> {
    v.map_values(|l: ConsoleLine| l.text@)
}

/// The kinds of a list of lines.
pub open spec fn line_kinds(v: Seq<ConsoleLine>) -> Seq<LineKind> {
    v.map_values(|l: ConsoleLine| l.kind)
}

/// The welcome line.
pub open spec fn welcome_text() -> Seq<char> {
    "堪舆终端 v0.2 —— 输入 help 查看命令；终端与界面共享数据现场。"@
}

/// The lines the terminal keeps: the newest [`MAX_LINES`].
pub open spec fn kept_lines(all: Seq<ConsoleLine>) -> Seq<ConsoleLine> {
    if all.len() > MAX_LINES {
        all.subrange(all.len() - MAX_LINES, all.len() as int)
    } else {
        all
    }
}

/// The terminal never keeps more than [`MAX_LINES`] lines after a command,
/// and what it keeps is the newest part, in order.
pub proof fn law_console_keeps_newest(all: Seq<ConsoleLine>)
    ensures
        kept_lines(all).len() <= MAX_LINES,
        kept_lines(all) == all.subrange(all.len() - kept_lines(all).len(), all.len() as int),
        all.len() <= MAX_LINES ==> kept_lines(all) == all,
{
    if all.len() <= MAX_LINES {
        assert(all.subrange(0, all.len() as int) =~= all);
    }
}

impl Default for ConsolePanel {
    /// Empty input and history, one welcome notice.
    fn default() -> (r: Self)
        ensures
            r.input@.len() == 0,
            r.cmd_history@.len() == 0,
            r.nav is None,
            line_texts(r.lines@) == seq![welcome_text()],
            line_kinds(r.lines@) == seq![LineKind::Info],
    {
        let mut lines: Vec<ConsoleLine> = Vec::new();
        lines.push(
            ConsoleLine {
                kind: LineKind::Info,
                text: String::from_str("堪舆终端 v0.2 —— 输入 help 查看命令；终端与界面共享数据现场。"),
            },
        );
        let r = ConsolePanel { input: String::new(), lines, cmd_history: Vec::new(), nav: None };
        assert(line_texts(r.lines@) =~= seq![welcome_text()]);
        assert(line_kinds(r.lines@) =~= seq![LineKind::Info]);
        r
    }
}

impl ConsolePanel {
    /// Appends an output line.
    pub fn push(&mut self, kind: LineKind, text: String)
        ensures
            final(self).lines@ == old(self).lines@.push(ConsoleLine { kind, text }),
            final(self).input == old(self).input,
            final(self).cmd_history == old(self).cmd_history,
            final(self).nav == old(self).nav,
    {
        self.lines.push(ConsoleLine { kind, text });
    }

    /// Appends a notice line (feedback of interface actions).
    pub fn info(&mut self, text: String)
        ensures
            final(self).lines@ == old(self).lines@.push(ConsoleLine { kind: LineKind::Info, text }),
            final(self).input == old(self).input,
            final(self).cmd_history == old(self).cmd_history,
            final(self).nav == old(self).nav,
    {
        self.push(LineKind::Info, text);
    }

    /// Starts executing `cmd`: a blank command does nothing; otherwise the
    /// trimmed command is echoed, recorded in the history, navigation stops,
    /// and the parsed command is returned for the application to run.
    pub fn begin_execute(&mut self, cmd: &str) -> (r: Option<ConsoleCommand>)
        ensures
            trim_seq(cmd@).len() == 0 ==> r is None && *final(self) == *old(self),
            trim_seq(cmd@).len() > 0 ==> {
                &&& r matches Some(c) && parsed_as(c, trim_seq(cmd@))
                &&& line_texts(final(self).lines@) == line_texts(old(self).lines@).push(
                    "kanyu> "@ + trim_seq(cmd@),
                )
                &&& line_kinds(final(self).lines@) == line_kinds(old(self).lines@).push(
                    LineKind::Cmd,
                )
                &&& final(self).cmd_history@.len() == old(self).cmd_history@.len() + 1
                &&& final(self).cmd_history@.last()@ == trim_seq(cmd@)
                &&& final(self).cmd_history@.drop_last() == old(self).cmd_history@
                &&& final(self).nav is None
                &&& final(self).input == old(self).input
            },
    {
        let t = trim(cmd);
        if t.unicode_len() == 0 {
            return None;
        }
        let mut echo = String::from_str("kanyu> ");
        echo.append(t);
        let ghost old_lines = self.lines@;
        self.lines.push(ConsoleLine { kind: LineKind::Cmd, text: echo });
        assert(line_texts(self.lines@) =~= line_texts(old_lines).push("kanyu> "@ + t@));
        assert(line_kinds(self.lines@) =~= line_kinds(old_lines).push(LineKind::Cmd));
        self.cmd_history.push(String::from_str(t));
        self.nav = None;
        Some(parse_command(t))
    }

    /// Finishes executing a command: appends its output, then keeps only the
    /// newest [`MAX_LINES`] lines.
    pub fn finish_execute(&mut self, out: Vec<ConsoleLine>)
        ensures
            final(self).lines@ == kept_lines(old(self).lines@ + out@),
            final(self).input == old(self).input,
            final(self).cmd_history == old(self).cmd_history,
            final(self).nav == old(self).nav,
    {
        let mut out = out;
        self.lines.append(&mut out);
        let n = self.lines.len();
        if n > MAX_LINES {
            let tail = self.lines.split_off(n - MAX_LINES);
            self.lines = tail;
        }
    }

    /// ↑ in the input box: step to the previous history entry (from the newest
    /// when not navigating; stays on the oldest) and show it.
    pub fn history_up(&mut self)
        ensures
            ({
                let len = old(self).cmd_history@.len();
                match nav_after_up(old(self).nav, len) {
                    None => *final(self) == *old(self),
                    Some(n) => {
                        &&& final(self).nav == Some(n)
                        &&& final(self).input@ == if n < len {
                            old(self).cmd_history@[n as int]@
                        } else {
                            old(self).input@
                        }
                        &&& final(self).lines == old(self).lines
                        &&& final(self).cmd_history == old(self).cmd_history
                    },
                }
            }),
    {
        let len = self.cmd_history.len();
        let next: Option<usize> = match self.nav {
            None => if len > 0 {
                Some(len - 1)
            } else {
                None
            },
            Some(n) => if n == 0 {
                Some(0)
            } else {
                Some(n - 1)
            },
        };
        if let Some(n) = next {
            self.nav = Some(n);
            if n < len {
                self.input = self.cmd_history[n].clone();
            }
        }
    }

    /// ↓ in the input box: step to the next history entry, or leave navigation
    /// with an empty input after the newest.
    pub fn history_down(&mut self)
        ensures
            final(self).nav == nav_after_down(old(self).nav, old(self).cmd_history@.len()),
            final(self).input@ == match final(self).nav {
                Some(n) => old(self).cmd_history@[n as int]@,
                None => Seq::<char>::empty(),
            },
            final(self).lines == old(self).lines,
            final(self).cmd_history == old(self).cmd_history,
    {
        let len = self.cmd_history.len();
        match self.nav {
            Some(n) if n < len && n + 1 < len => {
                self.nav = Some(n + 1);
                self.input = self.cmd_history[n + 1].clone();
            },
            _ => {
                self.nav = None;
                self.input = String::new();
            },
        }
    }

    /// Enter in the input box: hands over the input and clears the box.
    pub fn take_input(&mut self) -> (r: String)
        ensures
            r@ == old(self).input@,
            final(self).input@.len() == 0,
            final(self).lines == old(self).lines,
            final(self).cmd_history == old(self).cmd_history,
            final(self).nav == old(self).nav,
    {
        let r = self.input.clone();
        self.input = String::new();
        r
    }
}

/// Navigation position after ↑ with `len` history entries (`None`: nothing to
/// show, the state is left as it was).
pub open spec fn nav_after_up(nav: Option<usize>, len: nat) -> Option<usize> {
    match nav {
        None => if len > 0 {
            Some((len - 1) as usize)
        } else {
            None
        },
        Some(n) => if n == 0 {
            Some(0usize)
        } else {
            Some((n - 1) as usize)
        },
    }
}

/// Navigation position after ↓ with `len` history entries.
pub open spec fn nav_after_down(nav: Option<usize>, len: nat) -> Option<usize> {
    match nav {
        Some(n) => if n + 1 < len {
            Some((n + 1) as usize)
        } else {
            None
        },
        None => None,
    }
}

/// ↓ undoes ↑ while navigating inside the history: from entry `n > 0` one step
/// up and one step down returns to entry `n`; from the newest entry ↓ leaves
/// navigation, and ↑ then returns to the newest entry.
pub proof fn law_history_up_down(n: usize, len: nat)
    requires
        n < len,
    ensures
        n > 0 ==> nav_after_down(nav_after_up(Some(n), len), len) == Some(n),
        n + 1 == len ==> nav_after_down(Some(n), len) is None && nav_after_up(None, len) == Some(
            n,
        ),
{
}

/// Command reference (the `help` output).
pub const HELP_TEXT: &'static str = "命令：
  load <路径>                    加载数据（shp/geojson/fgb/parquet/dxf/dwg/kml/kmz/csv/xlsx）
  layers                         图层清单
  info <图层id>                  图层概要（要素数/几何类型/字段）
  query <图层id> <表达式>        属性查询，结果存为新图层（如 height > 50）
  buffer <图层id> <距离>         缓冲区（CRS 单位，结果存为新图层）
  measure <图层id> length|area   测地线度量（米/平方米）
  topology <图层id>              拓扑检查（no_overlap）
  reproject <图层id> <from> <to> 投影变换（如 EPSG:4326 EPSG:3857，存为新图层）
  export <图层id> <路径> [格式]  导出图层到文件（格式默认按扩展名）
  fit                            视图缩放到数据范围
  theme                          切换晨山/夜观星
  clear                          清空终端历史
  help                           本速查";

/// A parsed terminal command.
pub enum ConsoleCommand {
    /// No words at all.
    Empty,
    /// `help` / `?`.
    Help,
    /// `clear` / `cls`.
    Clear,
    /// `load <path>`.
    Load(String),
    /// `layers`.
    Layers,
    /// `info <id>`.
    Info(String),
    /// `query <id> <expr…>` (the expression words joined by single spaces).
    Query { id: String, expr: String },
    /// `buffer <id> <distance>` (distance text, checked by the caller).
    Buffer { id: String, distance: String },
    /// `measure <id> <kind>`.
    Measure { id: String, kind: String },
    /// `topology <id>`.
    Topology(String),
    /// `reproject <id> <from> <to>`.
    Reproject { id: String, from: String, to: String },
    /// `export <id> <path> [format]` (format defaults to the path's extension).
    Export { id: String, out: String, fmt: String },
    /// `fit`.
    Fit,
    /// `theme`.
    Theme,
    /// Known command with the wrong arguments: its usage text.
    Usage(&'static str),
    /// Unknown command name.
    Unknown(String),
}

/// Usage text of each command.
pub open spec fn usage_of(name: Seq<char>) -> Seq<char> {
    if name == "load"@ {
        "load <路径>"@
    } else if name == "info"@ {
        "info <图层id>"@
    } else if name == "query"@ {
        "query <图层id> <表达式>"@
    } else if name == "buffer"@ {
        "buffer <图层id> <距离>"@
    } else if name == "measure"@ {
        "measure <图层id> length|area"@
    } else if name == "topology"@ {
        "topology <图层id>"@
    } else if name == "reproject"@ {
        "reproject <图层id> <from> <to>"@
    } else {
        "export <图层id> <路径> [格式]"@
    }
}

/// Number of arguments each command takes (`query` takes two or more, `export`
/// two or three; those are handled separately).
pub open spec fn arity_of(name: Seq<char>) -> int {
    if name == "load"@ || name == "info"@ || name == "topology"@ {
        1
    } else if name == "buffer"@ || name == "measure"@ {
        2
    } else {
        3
    }
}

/// `c` is what the terminal makes of the (trimmed) command text `t`.
pub open spec fn parsed_as(c: ConsoleCommand, t: Seq<char>) -> bool {
    let words = split_ws(t);
    let name = words[0];
    let args = words.drop_first();
    if words.len() == 0 {
        c is Empty
    } else if name == "help"@ || name == "?"@ {
        c is Help
    } else if name == "clear"@ || name == "cls"@ {
        c is Clear
    } else if name == "layers"@ {
        c is Layers
    } else if name == "fit"@ {
        c is Fit
    } else if name == "theme"@ {
        c is Theme
    } else if name == "query"@ {
        if args.len() < 2 {
            c matches ConsoleCommand::Usage(u) && u@ == usage_of(name)
        } else {
            c matches ConsoleCommand::Query { id, expr } && id@ == args[0] && expr@ == join_seq(
                args.drop_first(),
                " "@,
            )
        }
    } else if name == "export"@ {
        if args.len() == 2 {
            c matches ConsoleCommand::Export { id, out, fmt } && id@ == args[0] && out@ == args[1]
                && fmt@ == after_last_seq(args[1], '.')
        } else if args.len() == 3 {
            c matches ConsoleCommand::Export { id, out, fmt } && id@ == args[0] && out@ == args[1]
                && fmt@ == args[2]
        } else {
            c matches ConsoleCommand::Usage(u) && u@ == usage_of(name)
        }
    } else if name == "load"@ || name == "info"@ || name == "topology"@ || name == "buffer"@
        || name == "measure"@ || name == "reproject"@ {
        if args.len() != arity_of(name) {
            c matches ConsoleCommand::Usage(u) && u@ == usage_of(name)
        } else if name == "load"@ {
            c matches ConsoleCommand::Load(p) && p@ == args[0]
        } else if name == "info"@ {
            c matches ConsoleCommand::Info(id) && id@ == args[0]
        } else if name == "topology"@ {
            c matches ConsoleCommand::Topology(id) && id@ == args[0]
        } else if name == "buffer"@ {
            c matches ConsoleCommand::Buffer { id, distance } && id@ == args[0] && distance@
                == args[1]
        } else if name == "measure"@ {
            c matches ConsoleCommand::Measure { id, kind } && id@ == args[0] && kind@ == args[1]
        } else {
            c matches ConsoleCommand::Reproject { id, from, to } && id@ == args[0] && from@
                == args[1] && to@ == args[2]
        }
    } else {
        c matches ConsoleCommand::Unknown(n) && n@ == name
    }
}

/// Where a command line's words go: the first argument is the layer id (the
/// path for `load`), the others follow in the order of the usage texts
/// (`buffer <图层id> <距离>`, `measure <图层id> length|area`, `reproject
/// <图层id> <from> <to>`, `export <图层id> <路径> [格式]`, `query <图层id>
/// <表达式>` with the expression words joined by spaces); a wrong number of
/// arguments gives the command's usage text.
pub proof fn law_command_arguments(c: ConsoleCommand, t: Seq<char>)
    requires
        parsed_as(c, t),
    ensures
        (split_ws(t).len() == 2 && split_ws(t)[0] == "load"@) ==> (c matches ConsoleCommand::Load(p) && p@
                == split_ws(t)[1]),
        (split_ws(t).len() == 2 && split_ws(t)[0] == "info"@) ==> (c matches ConsoleCommand::Info(id) && id@
                == split_ws(t)[1]),
        (split_ws(t).len() == 2 && split_ws(t)[0] == "topology"@) ==> (c matches ConsoleCommand::Topology(id)
                && id@ == split_ws(t)[1]),
        (split_ws(t).len() == 3 && split_ws(t)[0] == "buffer"@) ==> (c matches ConsoleCommand::Buffer {
                id,
                distance,
            } && id@ == split_ws(t)[1] && distance@ == split_ws(t)[2]),
        (split_ws(t).len() == 3 && split_ws(t)[0] == "measure"@) ==> (c matches ConsoleCommand::Measure {
                id,
                kind,
            } && id@ == split_ws(t)[1] && kind@ == split_ws(t)[2]),
        (split_ws(t).len() == 4 && split_ws(t)[0] == "reproject"@) ==> (c matches ConsoleCommand::Reproject {
                id,
                from,
                to,
            } && id@ == split_ws(t)[1] && from@ == split_ws(t)[2] && to@ == split_ws(t)[3]),
        (split_ws(t).len() >= 3 && split_ws(t)[0] == "query"@) ==> (c matches ConsoleCommand::Query { id, expr }
                && id@ == split_ws(t)[1] && expr@ == join_seq(split_ws(t).subrange(2, split_ws(t).len() as int), " "@)),
        (split_ws(t).len() == 3 && split_ws(t)[0] == "export"@) ==> (c matches ConsoleCommand::Export {
                id,
                out,
                fmt,
            } && id@ == split_ws(t)[1] && out@ == split_ws(t)[2] && fmt@ == after_last_seq(split_ws(t)[2], '.')),
        (split_ws(t).len() == 4 && split_ws(t)[0] == "export"@) ==> (c matches ConsoleCommand::Export {
                id,
                out,
                fmt,
            } && id@ == split_ws(t)[1] && out@ == split_ws(t)[2] && fmt@ == split_ws(t)[3]),
        (split_ws(t).len() >= 1 && split_ws(t).len() != 3 && split_ws(t)[0] == "measure"@) ==> (c matches ConsoleCommand::Usage(
                u,
            ) && u@ == "measure <图层id> length|area"@),
        (split_ws(t).len() >= 1 && split_ws(t).len() != 3 && split_ws(t)[0] == "buffer"@) ==> (c matches ConsoleCommand::Usage(
                u,
            ) && u@ == "buffer <图层id> <距离>"@),
        (split_ws(t).len() >= 1 && split_ws(t).len() != 2 && split_ws(t)[0] == "load"@) ==> (c matches ConsoleCommand::Usage(
                u,
            ) && u@ == "load <路径>"@),
        (split_ws(t).len() >= 1 && split_ws(t).len() != 4 && split_ws(t)[0] == "reproject"@) ==> (
            c matches ConsoleCommand::Usage(u) && u@ == "reproject <图层id> <from> <to>"@),
{
    reveal_strlit("help");
    reveal_strlit("?");
    reveal_strlit("clear");
    reveal_strlit("cls");
    reveal_strlit("layers");
    reveal_strlit("fit");
    reveal_strlit("theme");
    reveal_strlit("query");
    reveal_strlit("export");
    reveal_strlit("load");
    reveal_strlit("info");
    reveal_strlit("topology");
    reveal_strlit("buffer");
    reveal_strlit("measure");
    reveal_strlit("reproject");
    assert("help"@.len() != "?"@.len());
    assert("help"@.len() != "clear"@.len());
    assert("help"@.len() != "cls"@.len());
    assert("help"@.len() != "layers"@.len());
    assert("help"@.len() != "fit"@.len());
    assert("help"@.len() != "theme"@.len());
    assert("help"@.len() != "query"@.len());
    assert("help"@.len() != "export"@.len());
    assert("help"@[0] != "load"@[0]);
    assert("help"@[0] != "info"@[0]);
    assert("help"@.len() != "topology"@.len());
    assert("help"@.len() != "buffer"@.len());
    assert("help"@.len() != "measure"@.len());
    assert("help"@.len() != "reproject"@.len());
    assert("?"@.len() != "clear"@.len());
    assert("?"@.len() != "cls"@.len());
    assert("?"@.len() != "layers"@.len());
    assert("?"@.len() != "fit"@.len());
    assert("?"@.len() != "theme"@.len());
    assert("?"@.len() != "query"@.len());
    assert("?"@.len() != "export"@.len());
    assert("?"@.len() != "load"@.len());
    assert("?"@.len() != "info"@.len());
    assert("?"@.len() != "topology"@.len());
    assert("?"@.len() != "buffer"@.len());
    assert("?"@.len() != "measure"@.len());
    assert("?"@.len() != "reproject"@.len());
    assert("clear"@.len() != "cls"@.len());
    assert("clear"@.len() != "layers"@.len());
    assert("clear"@.len() != "fit"@.len());
    assert("clear"@[0] != "theme"@[0]);
    assert("clear"@[0] != "query"@[0]);
    assert("clear"@.len() != "export"@.len());
    assert("clear"@.len() != "load"@.len());
    assert("clear"@.len() != "info"@.len());
    assert("clear"@.len() != "topology"@.len());
    assert("clear"@.len() != "buffer"@.len());
    assert("clear"@.len() != "measure"@.len());
    assert("clear"@.len() != "reproject"@.len());
    assert("cls"@.len() != "layers"@.len());
    assert("cls"@[0] != "fit"@[0]);
    assert("cls"@.len() != "theme"@.len());
    assert("cls"@.len() != "query"@.len());
    assert("cls"@.len() != "export"@.len());
    assert("cls"@.len() != "load"@.len());
    assert("cls"@.len() != "info"@.len());
    assert("cls"@.len() != "topology"@.len());
    assert("cls"@.len() != "buffer"@.len());
    assert("cls"@.len() != "measure"@.len());
    assert("cls"@.len() != "reproject"@.len());
    assert("layers"@.len() != "fit"@.len());
    assert("layers"@.len() != "theme"@.len());
    assert("layers"@.len() != "query"@.len());
    assert("layers"@[0] != "export"@[0]);
    assert("layers"@.len() != "load"@.len());
    assert("layers"@.len() != "info"@.len());
    assert("layers"@.len() != "topology"@.len());
    assert("layers"@[0] != "buffer"@[0]);
    assert("layers"@.len() != "measure"@.len());
    assert("layers"@.len() != "reproject"@.len());
    assert("fit"@.len() != "theme"@.len());
    assert("fit"@.len() != "query"@.len());
    assert("fit"@.len() != "export"@.len());
    assert("fit"@.len() != "load"@.len());
    assert("fit"@.len() != "info"@.len());
    assert("fit"@.len() != "topology"@.len());
    assert("fit"@.len() != "buffer"@.len());
    assert("fit"@.len() != "measure"@.len());
    assert("fit"@.len() != "reproject"@.len());
    assert("theme"@[0] != "query"@[0]);
    assert("theme"@.len() != "export"@.len());
    assert("theme"@.len() != "load"@.len());
    assert("theme"@.len() != "info"@.len());
    assert("theme"@.len() != "topology"@.len());
    assert("theme"@.len() != "buffer"@.len());
    assert("theme"@.len() != "measure"@.len());
    assert("theme"@.len() != "reproject"@.len());
    assert("query"@.len() != "export"@.len());
    assert("query"@.len() != "load"@.len());
    assert("query"@.len() != "info"@.len());
    assert("query"@.len() != "topology"@.len());
    assert("query"@.len() != "buffer"@.len());
    assert("query"@.len() != "measure"@.len());
    assert("query"@.len() != "reproject"@.len());
    assert("export"@.len() != "load"@.len());
    assert("export"@.len() != "info"@.len());
    assert("export"@.len() != "topology"@.len());
    assert("export"@[0] != "buffer"@[0]);
    assert("export"@.len() != "measure"@.len());
    assert("export"@.len() != "reproject"@.len());
    assert("load"@[0] != "info"@[0]);
    assert("load"@.len() != "topology"@.len());
    assert("load"@.len() != "buffer"@.len());
    assert("load"@.len() != "measure"@.len());
    assert("load"@.len() != "reproject"@.len());
    assert("info"@.len() != "topology"@.len());
    assert("info"@.len() != "buffer"@.len());
    assert("info"@.len() != "measure"@.len());
    assert("info"@.len() != "reproject"@.len());
    assert("topology"@.len() != "buffer"@.len());
    assert("topology"@.len() != "measure"@.len());
    assert("topology"@.len() != "reproject"@.len());
    assert("buffer"@.len() != "measure"@.len());
    assert("buffer"@.len() != "reproject"@.len());
    assert("measure"@.len() != "reproject"@.len());
    let w = split_ws(t);
    if w.len() >= 2 {
        assert(w.drop_first().drop_first() =~= w.subrange(2, w.len() as int));
    }
}

/// The usage text of a command that takes fixed arguments.
fn usage_text(name: &str) -> (r: &'static str)
    ensures
        r@ == usage_of(name@),
{
    if str_eq(name, "load") {
        "load <路径>"
    } else if str_eq(name, "info") {
        "info <图层id>"
    } else if str_eq(name, "query") {
        "query <图层id> <表达式>"
    } else if str_eq(name, "buffer") {
        "buffer <图层id> <距离>"
    } else if str_eq(name, "measure") {
        "measure <图层id> length|area"
    } else if str_eq(name, "topology") {
        "topology <图层id>"
    } else if str_eq(name, "reproject") {
        "reproject <图层id> <from> <to>"
    } else {
        "export <图层id> <路径> [格式]"
    }
}

/// The words from index `from` on, joined by single spaces.
fn join_words(words: &Vec<&str>, from: usize) -> (r: String)
    requires
        from <= words@.len(),
    ensures
        r@ == join_seq(views(words@).subrange(from as int, words@.len() as int), " "@),
{
    let n = words.len();
    let ghost all = views(words@).subrange(from as int, n as int);
    let mut out = String::new();
    let mut i: usize = from;
    while i < n
        invariant
            n == words@.len(),
            from <= i <= n,
            all == views(words@).subrange(from as int, n as int),
            out@ == join_seq(all.take(i - from), " "@),
        decreases n - i,
    {
        if i != from {
            out.append(" ");
        }
        out.append(words[i]);
        proof {
            assert(all.take(i + 1 - from).drop_last() =~= all.take(i - from));
            assert(all[i - from] == words@[i as int]@);
            if i == from {
                assert(all.take(0) =~= Seq::<Seq<char>>::empty());
                assert(out@ =~= all.take(1)[0]);
            }
        }
        i = i + 1;
    }
    assert(all.take(n - from) =~= all);
    out
}

/// Parses one command line into a command.
pub fn parse_command(cmd: &str) -> (r: ConsoleCommand)
    ensures
        parsed_as(r, cmd@),
{
    let words = split_whitespace(cmd);
    let ghost ws = split_ws(cmd@);
    assert(views(words@) == ws);
    if words.len() == 0 {
        return ConsoleCommand::Empty;
    }
    let name = words[0];
    let ghost args = ws.drop_first();
    assert(name@ == ws[0]);
    let nargs = words.len() - 1;
    assert(nargs == args.len());
    assert forall|k: int| 0 <= k < args.len() implies args[k] == words@[k + 1]@ by {}
    if str_eq(name, "help") || str_eq(name, "?") {
        ConsoleCommand::Help
    } else if str_eq(name, "clear") || str_eq(name, "cls") {
        ConsoleCommand::Clear
    } else if str_eq(name, "layers") {
        ConsoleCommand::Layers
    } else if str_eq(name, "fit") {
        ConsoleCommand::Fit
    } else if str_eq(name, "theme") {
        ConsoleCommand::Theme
    } else if str_eq(name, "query") {
        if nargs < 2 {
            ConsoleCommand::Usage(usage_text(name))
        } else {
            let expr = join_words(&words, 2);
            assert(views(words@).subrange(2, words@.len() as int) =~= args.drop_first());
            ConsoleCommand::Query { id: String::from_str(words[1]), expr }
        }
    } else if str_eq(name, "export") {
        if nargs == 2 {
            let fmt = String::from_str(after_last(words[2], '.'));
            ConsoleCommand::Export {
                id: String::from_str(words[1]),
                out: String::from_str(words[2]),
                fmt,
            }
        } else if nargs == 3 {
            ConsoleCommand::Export {
                id: String::from_str(words[1]),
                out: String::from_str(words[2]),
                fmt: String::from_str(words[3]),
            }
        } else {
            ConsoleCommand::Usage(usage_text(name))
        }
    } else if str_eq(name, "load") {
        if nargs != 1 {
            ConsoleCommand::Usage(usage_text(name))
        } else {
            ConsoleCommand::Load(String::from_str(words[1]))
        }
    } else if str_eq(name, "info") {
        if nargs != 1 {
            ConsoleCommand::Usage(usage_text(name))
        } else {
            ConsoleCommand::Info(String::from_str(words[1]))
        }
    } else if str_eq(name, "topology") {
        if nargs != 1 {
            ConsoleCommand::Usage(usage_text(name))
        } else {
            ConsoleCommand::Topology(String::from_str(words[1]))
        }
    } else if str_eq(name, "buffer") {
        if nargs != 2 {
            ConsoleCommand::Usage(usage_text(name))
        } else {
            ConsoleCommand::Buffer {
                id: String::from_str(words[1]),
                distance: String::from_str(words[2]),
            }
        }
    } else if str_eq(name, "measure") {
        if nargs != 2 {
            ConsoleCommand::Usage(usage_text(name))
        } else {
            ConsoleCommand::Measure {
                id: String::from_str(words[1]),
                kind: String::from_str(words[2]),
            }
        }
    } else if str_eq(name, "reproject") {
        if nargs != 3 {
            ConsoleCommand::Usage(usage_text(name))
        } else {
            ConsoleCommand::Reproject {
                id: String::from_str(words[1]),
                from: String::from_str(words[2]),
                to: String::from_str(words[3]),
            }
        }
    } else {
        ConsoleCommand::Unknown(String::from_str(name))
    }
}


/// A line of kind `kind` with text `text`.
pub open spec fn line_is(l: ConsoleLine, kind: LineKind, text: Seq<char>) -> bool {
    l.kind == kind && l.text@ == text
}

/// The line reporting a host result: its message as output, or its error.
pub fn outcome_line(r: Result<String, String>) -> (l: ConsoleLine)
    ensures
        match r {
            Ok(m) => line_is(l, LineKind::Output, m@),
            Err(e) => line_is(l, LineKind::Error, e@),
        },
{
    match r {
        Ok(m) => ConsoleLine { kind: LineKind::Output, text: m },
        Err(e) => ConsoleLine { kind: LineKind::Error, text: e },
    }
}

/// Suffix pointing at the command reference.
pub open spec fn help_hint() -> Seq<char> {
    "（输入 help 查看全部命令）"@
}

/// The error line for a command used with the wrong arguments.
pub fn usage_line(usage: &str) -> (l: ConsoleLine)
    ensures
        line_is(l, LineKind::Error, "用法: "@ + usage@ + help_hint()),
{
    let mut t = String::from_str("用法: ");
    t.append(usage);
    t.append("（输入 help 查看全部命令）");
    ConsoleLine { kind: LineKind::Error, text: t }
}

/// The error line for an unknown command name.
pub fn unknown_line(name: &str) -> (l: ConsoleLine)
    ensures
        line_is(l, LineKind::Error, "未知命令: "@ + name@ + help_hint()),
{
    let mut t = String::from_str("未知命令: ");
    t.append(name);
    t.append("（输入 help 查看全部命令）");
    ConsoleLine { kind: LineKind::Error, text: t }
}

/// The error line for a buffer distance that is not a non-zero number.
pub fn distance_error_line(distance: &str) -> (l: ConsoleLine)
    ensures
        line_is(l, LineKind::Error, "距离须为非零数值: "@ + distance@),
{
    let mut t = String::from_str("距离须为非零数值: ");
    t.append(distance);
    ConsoleLine { kind: LineKind::Error, text: t }
}

/// The text of one row of the `layers` listing: id padded to 24, format padded
/// to 10, then the feature count.
pub open spec fn layer_row_text(id: Seq<char>, fmt: Seq<char>, n: nat) -> Seq<char> {
    pad_right_seq(id, 24) + " "@ + pad_right_seq(fmt, 10) + " "@ + dec_seq(n) + " 要素"@
}

/// The answer to `layers` when there is none.
pub open spec fn no_layers_text() -> Seq<char> {
    "（无图层；load <路径> 加载）"@
}

/// Output of `layers`: one row per layer (id, format, feature count), or a hint
/// when there are none.
pub fn layers_lines(layers: &Vec<(String, String, usize)>) -> (r: Vec<ConsoleLine>)
    ensures
        layers@.len() == 0 ==> r@.len() == 1 && line_is(r@[0], LineKind::Output, no_layers_text()),
        layers@.len() > 0 ==> r@.len() == layers@.len() && forall|i: int|
            0 <= i < r@.len() ==> line_is(
                #[trigger] r@[i],
                LineKind::Output,
                layer_row_text(layers@[i].0@, layers@[i].1@, layers@[i].2 as nat),
            ),
{
    let mut out: Vec<ConsoleLine> = Vec::new();
    let n = layers.len();
    if n == 0 {
        out.push(ConsoleLine { kind: LineKind::Output, text: String::from_str("（无图层；load <路径> 加载）") });
        return out;
    }
    let mut i: usize = 0;
    while i < n
        invariant
            n == layers@.len(),
            i <= n,
            out@.len() == i,
            forall|k: int|
                0 <= k < i ==> line_is(
                    #[trigger] out@[k],
                    LineKind::Output,
                    layer_row_text(layers@[k].0@, layers@[k].1@, layers@[k].2 as nat),
                ),
        decreases n - i,
    {
        let (id, fmt, count) = (&layers[i].0, &layers[i].1, layers[i].2);
        let mut t = String::new();
        push_padded(&mut t, id.as_str(), 24);
        t.append(" ");
        push_padded(&mut t, fmt.as_str(), 10);
        t.append(" ");
        push_decimal(&mut t, count as u64);
        t.append(" 要素");
        assert(t@ =~= layer_row_text(id@, fmt@, count as nat));
        out.push(ConsoleLine { kind: LineKind::Output, text: t });
        i = i + 1;
    }
    out
}

/// `r` is the fixed answer of command `c` (see [`reply_without_host`]).
pub open spec fn fixed_reply(c: ConsoleCommand, r: Option<Seq<ConsoleLine>>) -> bool {
    match c {
        ConsoleCommand::Empty => r matches Some(v) && v.len() == 0,
        ConsoleCommand::Help => r matches Some(v) && v.len() == 1 && line_is(
            v[0],
            LineKind::Output,
            HELP_TEXT@,
        ),
        ConsoleCommand::Clear => r matches Some(v) && v.len() == 1 && line_is(
            v[0],
            LineKind::Info,
            "（历史已由界面清空）"@,
        ),
        ConsoleCommand::Usage(u) => r matches Some(v) && v.len() == 1 && line_is(
            v[0],
            LineKind::Error,
            "用法: "@ + u@ + help_hint(),
        ),
        ConsoleCommand::Unknown(n) => r matches Some(v) && v.len() == 1 && line_is(
            v[0],
            LineKind::Error,
            "未知命令: "@ + n@ + help_hint(),
        ),
        ConsoleCommand::Fit => r matches Some(v) && v.len() == 1 && line_is(
            v[0],
            LineKind::Output,
            "已缩放到数据范围"@,
        ),
        ConsoleCommand::Theme => r matches Some(v) && v.len() == 1 && line_is(
            v[0],
            LineKind::Output,
            "已切换主题"@,
        ),
        _ => r is None,
    }
}

/// The answer of commands whose answer does not depend on the data: `help`,
/// `clear`, `fit`, `theme`, a usage error or an unknown name (`fit` and `theme`
/// still act on the application first). `None` for the others; an empty command
/// answers nothing.
pub fn reply_without_host(c: &ConsoleCommand) -> (r: Option<Vec<ConsoleLine>>)
    ensures
        fixed_reply(*c, match r {
            Some(v) => Some(v@),
            None => None,
        }),
{
    let mut v: Vec<ConsoleLine> = Vec::new();
    match c {
        ConsoleCommand::Empty => {},
        ConsoleCommand::Help => {
            v.push(ConsoleLine { kind: LineKind::Output, text: String::from_str(HELP_TEXT) });
        },
        ConsoleCommand::Clear => {
            v.push(ConsoleLine { kind: LineKind::Info, text: String::from_str("（历史已由界面清空）") });
        },
        ConsoleCommand::Usage(u) => {
            v.push(usage_line(u));
        },
        ConsoleCommand::Unknown(n) => {
            v.push(unknown_line(n.as_str()));
        },
        ConsoleCommand::Fit => {
            v.push(ConsoleLine { kind: LineKind::Output, text: String::from_str("已缩放到数据范围") });
        },
        ConsoleCommand::Theme => {
            v.push(ConsoleLine { kind: LineKind::Output, text: String::from_str("已切换主题") });
        },
        _ => {
            return None;
        },
    }
    Some(v)
}

/// What the application is asked to do for a command.
pub enum HostRequest {
    /// Load a data file.
    Load(String),
    /// List the layers.
    Layers,
    /// A layer's summary.
    Info(String),
    /// An attribute query.
    Query { id: String, expr: String },
    /// A buffer; the distance is the text typed (read as a number by the
    /// application, which refuses zero and non-finite values).
    Buffer { id: String, distance: String },
    /// A geodesic measurement.
    Measure { id: String, kind: String },
    /// A topology check.
    Topology(String),
    /// A reprojection.
    Reproject { id: String, from: String, to: String },
    /// A layer export.
    Export { id: String, out: String, fmt: String },
    /// Fit the view to the data.
    Fit,
    /// Switch the interface theme.
    ToggleTheme,
}

/// What the application answered.
pub enum HostReply {
    /// Nothing was asked, or the request returns nothing.
    Done,
    /// A message or an error.
    Outcome(Result<String, String>),
    /// The layer list: id, format, feature count.
    Layers(Vec<(String, String, usize)>),
    /// The buffer distance was not a non-zero finite number.
    BadDistance,
}

/// `req` is the request that command `c` makes of the application.
pub open spec fn requests(c: ConsoleCommand, req: Option<HostRequest>) -> bool {
    match c {
        ConsoleCommand::Load(p) => req matches Some(HostRequest::Load(q)) && q@ == p@,
        ConsoleCommand::Layers => req matches Some(HostRequest::Layers),
        ConsoleCommand::Info(i) => req matches Some(HostRequest::Info(j)) && j@ == i@,
        ConsoleCommand::Query { id, expr } => req matches Some(HostRequest::Query { id: j, expr: e })
            && j@ == id@ && e@ == expr@,
        ConsoleCommand::Buffer { id, distance } => req matches Some(
            HostRequest::Buffer { id: j, distance: d },
        ) && j@ == id@ && d@ == distance@,
        ConsoleCommand::Measure { id, kind } => req matches Some(
            HostRequest::Measure { id: j, kind: k },
        ) && j@ == id@ && k@ == kind@,
        ConsoleCommand::Topology(i) => req matches Some(HostRequest::Topology(j)) && j@ == i@,
        ConsoleCommand::Reproject { id, from, to } => req matches Some(
            HostRequest::Reproject { id: j, from: f, to: t },
        ) && j@ == id@ && f@ == from@ && t@ == to@,
        ConsoleCommand::Export { id, out, fmt } => req matches Some(
            HostRequest::Export { id: j, out: o, fmt: f },
        ) && j@ == id@ && o@ == out@ && f@ == fmt@,
        ConsoleCommand::Fit => req matches Some(HostRequest::Fit),
        ConsoleCommand::Theme => req matches Some(HostRequest::ToggleTheme),
        _ => req is None,
    }
}

/// The request command `c` makes of the application, if any: one per data
/// command, `fit` and `theme`; none for help, clear, usage errors, unknown
/// names and the empty command.
pub fn command_call(c: &ConsoleCommand) -> (r: Option<HostRequest>)
    ensures
        requests(*c, r),
{
    match c {
        ConsoleCommand::Load(p) => Some(HostRequest::Load(p.clone())),
        ConsoleCommand::Layers => Some(HostRequest::Layers),
        ConsoleCommand::Info(i) => Some(HostRequest::Info(i.clone())),
        ConsoleCommand::Query { id, expr } => Some(
            HostRequest::Query { id: id.clone(), expr: expr.clone() },
        ),
        ConsoleCommand::Buffer { id, distance } => Some(
            HostRequest::Buffer { id: id.clone(), distance: distance.clone() },
        ),
        ConsoleCommand::Measure { id, kind } => Some(
            HostRequest::Measure { id: id.clone(), kind: kind.clone() },
        ),
        ConsoleCommand::Topology(i) => Some(HostRequest::Topology(i.clone())),
        ConsoleCommand::Reproject { id, from, to } => Some(
            HostRequest::Reproject { id: id.clone(), from: from.clone(), to: to.clone() },
        ),
        ConsoleCommand::Export { id, out, fmt } => Some(
            HostRequest::Export { id: id.clone(), out: out.clone(), fmt: fmt.clone() },
        ),
        ConsoleCommand::Fit => Some(HostRequest::Fit),
        ConsoleCommand::Theme => Some(HostRequest::ToggleTheme),
        _ => None,
    }
}

/// Command `c` answers with a single outcome line for a message or an error.
pub open spec fn reports_outcome(c: ConsoleCommand) -> bool {
    match c {
        ConsoleCommand::Load(_) | ConsoleCommand::Info(_) | ConsoleCommand::Query { .. }
        | ConsoleCommand::Buffer { .. } | ConsoleCommand::Measure { .. } | ConsoleCommand::Topology(
            _,
        ) | ConsoleCommand::Reproject { .. } | ConsoleCommand::Export { .. } => true,
        _ => false,
    }
}

/// The lines that command `c` prints, given the application's reply to its
/// request: the fixed reply of a command that needs no data; the layer rows;
/// the distance error of a buffer; the outcome line of the other data
/// commands. A reply of another shape than the request asks prints nothing.
pub fn command_lines(c: &ConsoleCommand, reply: HostReply) -> (r: Vec<ConsoleLine>)
    ensures
        !fixed_reply(*c, None) ==> fixed_reply(*c, Some(r@)),
        match (*c, reply) {
            (ConsoleCommand::Layers, HostReply::Layers(ls)) => if ls@.len() == 0 {
                r@.len() == 1 && line_is(r@[0], LineKind::Output, no_layers_text())
            } else {
                r@.len() == ls@.len() && forall|i: int|
                    0 <= i < r@.len() ==> line_is(
                        #[trigger] r@[i],
                        LineKind::Output,
                        layer_row_text(ls@[i].0@, ls@[i].1@, ls@[i].2 as nat),
                    )
            },
            (ConsoleCommand::Buffer { distance, .. }, HostReply::BadDistance) => r@.len() == 1
                && line_is(r@[0], LineKind::Error, "距离须为非零数值: "@ + distance@),
            (cmd, HostReply::Outcome(res)) => reports_outcome(cmd) ==> r@.len() == 1 && match res {
                Ok(m) => line_is(r@[0], LineKind::Output, m@),
                Err(e) => line_is(r@[0], LineKind::Error, e@),
            },
            (cmd, _) => fixed_reply(*c, None) ==> r@.len() == 0,
        },
{
    match reply_without_host(c) {
        Some(v) => return v,
        None => {},
    }
    match (c, reply) {
        (ConsoleCommand::Layers, HostReply::Layers(ls)) => layers_lines(&ls),
        (ConsoleCommand::Buffer { distance, .. }, HostReply::BadDistance) => {
            let mut v = Vec::new();
            v.push(distance_error_line(distance.as_str()));
            v
        },
        (cmd, HostReply::Outcome(res)) => {
            let mut v = Vec::new();
            match cmd {
                ConsoleCommand::Load(_) | ConsoleCommand::Info(_) | ConsoleCommand::Query { .. }
                | ConsoleCommand::Buffer { .. } | ConsoleCommand::Measure { .. }
                | ConsoleCommand::Topology(_) | ConsoleCommand::Reproject { .. }
                | ConsoleCommand::Export { .. } => {
                    v.push(outcome_line(res));
                },
                _ => {},
            }
            v
        },
        _ => Vec::new(),
    }
}

} // verus!
