//! The terminal itself: what it is launched with, what its output and its end
//! are reported as.
use crate::payload::signed_bits;
use crate::payload::to_signed;
use crate::payload::validate_size;
use crate::payload::InvalidSize;
use crate::payload::TerminalSize;
use crate::session::TerminalEvent;
use crate::session::TerminalEventView;
use crate::text::blank;
use crate::text::is_blank;
use crate::text::opt_owned_text;
use crate::text::white_space;
use vstd::prelude::*;
use vstd::slice::slice_subrange;
use vstd::slice::slice_to_vec;

verus! {

/// The size of a pseudo-terminal, in characters and in pixels.
#[derive(Debug, Clone, Copy, PartialEq, Eq, Structural)]
pub struct PtyGeometry {
    pub rows: u16,
    pub cols: u16,
    pub pixel_width: u16,
    pub pixel_height: u16,
}

/// The geometry of a terminal of this size; its pixels are left open.
pub open spec fn geometry(size: TerminalSize) -> PtyGeometry {
    PtyGeometry { rows: size.rows, cols: size.cols, pixel_width: 0, pixel_height: 0 }
}

/// The geometry to open or resize a pseudo-terminal with.
pub fn pty_geometry(size: TerminalSize) -> (r: Result<PtyGeometry, InvalidSize>)
    ensures
        r == (if size.valid() {
            Ok(geometry(size))
        } else {
            Err(InvalidSize { size })
        }),
        r is Ok <==> size.cols != 0 && size.rows != 0,
        r matches Ok(g) ==> {
            &&& g.rows == size.rows
            &&& g.cols == size.cols
            &&& g.pixel_width == 0
            &&& g.pixel_height == 0
        },
{
    match validate_size(size) {
        Ok(()) => Ok(
            PtyGeometry { rows: size.rows, cols: size.cols, pixel_width: 0, pixel_height: 0 },
        ),
        Err(e) => Err(e),
    }
}

/// An environment variable of the launched program.
#[derive(Debug, Clone, PartialEq, Eq)]
pub struct EnvVar {
    pub name: String,
    pub value: String,
}

/// What an environment variable says.
pub struct EnvVarView {
    pub name: Seq<char>,
    pub value: Seq<char>,
}

impl View for EnvVar {
    type V = EnvVarView;

    open spec fn view(&self) -> EnvVarView {
        EnvVarView { name: self.name@, value: self.value@ }
    }
}

impl EnvVar {
    /// A variable of this name and value.
    fn new(name: &str, value: &str) -> (r: EnvVar)
        ensures
            r@ == (EnvVarView { name: name@, value: value@ }),
            r.name@ == name@,
            r.value@ == value@,
    {
        EnvVar { name: name.to_owned(), value: value.to_owned() }
    }
}

/// How a terminal is launched.
#[derive(Debug, Clone, PartialEq, Eq)]
pub struct LaunchPlan {
    /// The size to open the pseudo-terminal with.
    pub geometry: PtyGeometry,
    /// The directory to start in, if not the server's own.
    pub cwd: Option<String>,
    /// The variables to set.
    pub env: Vec<EnvVar>,
}

/// What a launch plan says.
pub struct LaunchView {
    pub geometry: PtyGeometry,
    pub cwd: Option<Seq<char>>,
    pub env: Seq<EnvVarView>,
}

impl View for LaunchPlan {
    type V = LaunchView;

    open spec fn view(&self) -> LaunchView {
        LaunchView {
            geometry: self.geometry,
            cwd: opt_owned_text(self.cwd),
            env: self.env@.map_values(|v: EnvVar| v@),
        }
    }
}

/// The directory to start in: the one asked for, as it stands, unless it is
/// blank.
pub open spec fn start_dir(cwd: Option<Seq<char>>) -> Option<Seq<char>> {
    match cwd {
        Some(dir) => if blank(dir) {
            None
        } else {
            Some(dir)
        },
        None => None,
    }
}

/// The language to run in: the server's own, or a plain one if it has none.
pub open spec fn language(lang: Option<Seq<char>>) -> Seq<char> {
    match lang {
        Some(own) => own,
        None => "C.UTF-8"@,
    }
}

/// The plan for a terminal of this size.
pub open spec fn plan_view(
    cwd: Option<Seq<char>>,
    size: TerminalSize,
    lang: Option<Seq<char>>,
) -> LaunchView {
    LaunchView {
        geometry: geometry(size),
        cwd: start_dir(cwd),
        env: seq![
            EnvVarView { name: "TERM"@, value: "xterm-256color"@ },
            EnvVarView { name: "COLORTERM"@, value: "truecolor"@ },
            EnvVarView { name: "LANG"@, value: language(lang) },
        ],
    }
}

/// Plans the launch of a terminal: `cwd` and `size` are what the client asked
/// for, `lang` is the server's own `LANG`.
pub fn launch_plan(cwd: Option<String>, size: TerminalSize, lang: Option<String>) -> (r: Result<
    LaunchPlan,
    InvalidSize,
>)
    ensures
        r is Ok <==> size.valid(),
        r matches Ok(plan) ==> plan@ == plan_view(opt_owned_text(cwd), size, opt_owned_text(lang)),
        r matches Err(e) ==> e == (InvalidSize { size }),
        r is Ok <==> size.cols != 0 && size.rows != 0,
        r matches Ok(plan) ==> {
            &&& plan.geometry.rows == size.rows
            &&& plan.geometry.cols == size.cols
            &&& plan.geometry.pixel_width == 0
            &&& plan.geometry.pixel_height == 0
            &&& plan.cwd matches Some(dir) ==> cwd matches Some(asked) && dir@ == asked@
            &&& plan.cwd is Some <==> cwd is Some && !blank(cwd->0@)
            &&& plan.env@.len() == 3
            &&& plan.env@[0].name@ == "TERM"@ && plan.env@[0].value@ == "xterm-256color"@
            &&& plan.env@[1].name@ == "COLORTERM"@ && plan.env@[1].value@ == "truecolor"@
            &&& plan.env@[2].name@ == "LANG"@
            &&& lang matches Some(own) ==> plan.env@[2].value@ == own@
            &&& lang is None ==> plan.env@[2].value@ == "C.UTF-8"@
        },
{
    match pty_geometry(size) {
        Ok(geometry) => {
            let dir: Option<String> = match cwd {
                Some(dir) => if is_blank(dir.as_str()) {
                    None
                } else {
                    Some(dir)
                },
                None => None,
            };
            let value: String = match lang {
                Some(own) => own,
                None => "C.UTF-8".to_owned(),
            };
            let env: Vec<EnvVar> = vec![
                EnvVar::new("TERM", "xterm-256color"),
                EnvVar::new("COLORTERM", "truecolor"),
                EnvVar::new("LANG", value.as_str()),
            ];
            let plan = LaunchPlan { geometry, cwd: dir, env };
            assert(plan@.env =~= plan_view(
                opt_owned_text(cwd),
                size,
                opt_owned_text(lang),
            ).env);
            Ok(plan)
        },
        Err(e) => Err(e),
    }
}

/// What a read from the terminal is reported as: the bytes read, or the end of
/// the output if there were none or the read failed.
pub open spec fn read_report(buf: Seq<u8>, read: Option<usize>) -> TerminalEventView {
    match read {
        Some(n) => if n == 0 {
            TerminalEventView::OutputClosed
        } else {
            TerminalEventView::Output(buf.take(n as int))
        },
        None => TerminalEventView::OutputClosed,
    }
}

/// Reports a read of `read` bytes into `buf`, or a failed one. The report of
/// the end of the output is the last.
pub fn report_read(buf: &[u8], read: Option<usize>) -> (r: TerminalEvent)
    requires
        read matches Some(n) ==> n <= buf@.len(),
    ensures
        r@ == read_report(buf@, read),
        match read {
            Some(n) if n > 0 => r matches TerminalEvent::Output(bytes) && bytes@ == buf@.take(
                n as int,
            ),
            _ => r is OutputClosed,
        },
{
    match read {
        Some(n) => {
            if n == 0 {
                return TerminalEvent::OutputClosed;
            }
            let bytes: Vec<u8> = slice_to_vec(slice_subrange(buf, 0, n));
            assert(bytes@ =~= buf@.take(n as int));
            TerminalEvent::Output(bytes)
        },
        None => TerminalEvent::OutputClosed,
    }
}

/// The code that a wait for the terminal's process is reported with.
pub open spec fn wait_code(status: Option<u32>) -> i32 {
    match status {
        Some(code) => signed_bits(code as int),
        None => -1i32,
    }
}

/// Reports the end of the terminal's process: its exit status, or nothing if
/// waiting for it failed.
pub fn report_exit(status: Option<u32>) -> (r: TerminalEvent)
    ensures
        r@ == TerminalEventView::Exit(wait_code(status)),
        r matches TerminalEvent::Exit(code) && code == (match status {
            Some(n) => if n < 0x8000_0000 {
                n as int
            } else {
                n - 0x1_0000_0000
            },
            None => -1,
        }),
{
    match status {
        Some(code) => TerminalEvent::Exit(to_signed(code)),
        None => TerminalEvent::Exit(-1),
    }
}

/// The reports of a terminal's reads, up to the one that ends its output.
pub open spec fn read_reports(reads: Seq<(Seq<u8>, Option<usize>)>) -> Seq<TerminalEventView>
    decreases reads.len(),
{
    if reads.len() == 0 {
        seq![]
    } else {
        let first = read_report(reads.first().0, reads.first().1);
        if first is OutputClosed {
            seq![first]
        } else {
            seq![first] + read_reports(reads.drop_first())
        }
    }
}

/// The end of the output is reported once, after all the output, and no report
/// is of empty output.
pub proof fn output_end_is_reported_last(reads: Seq<(Seq<u8>, Option<usize>)>, i: int)
    requires
        forall|k: int|
            0 <= k < reads.len() ==> ((#[trigger] reads[k]).1 matches Some(n) ==> n
                <= reads[k].0.len()),
        0 <= i < read_reports(reads).len(),
    ensures
        read_reports(reads)[i] is OutputClosed ==> i == read_reports(reads).len() - 1,
        read_reports(reads)[i] matches TerminalEventView::Output(bytes) ==> bytes.len() > 0,
    decreases reads.len(),
{
    let first = read_report(reads.first().0, reads.first().1);
    assert(reads[0] == reads.first());
    if !(first is OutputClosed) && i > 0 {
        let rest = reads.drop_first();
        assert forall|k: int| 0 <= k < rest.len() implies ((#[trigger] rest[k]).1 matches Some(n)
            ==> n <= rest[k].0.len()) by {
            assert(rest[k] == reads[k + 1]);
        }
        output_end_is_reported_last(rest, i - 1);
    }
}

/// A pseudo-terminal has the rows and the columns that were asked for, each as
/// such, and no size in pixels.
pub proof fn geometry_keeps_rows_and_columns(size: TerminalSize)
    ensures
        geometry(size).rows == size.rows,
        geometry(size).cols == size.cols,
        geometry(size).pixel_width == 0,
        geometry(size).pixel_height == 0,
{
}

/// A terminal starts in the directory that was asked for, unchanged, if there is
/// anything in its name but white space; otherwise in the server's own.
pub proof fn named_directory_is_used(dir: Seq<char>)
    ensures
        start_dir(None) is None,
        (exists|i: int| 0 <= i < dir.len() && !white_space(#[trigger] dir[i])) ==> start_dir(
            Some(dir),
        ) == Some(dir),
        (forall|i: int| 0 <= i < dir.len() ==> white_space(#[trigger] dir[i])) ==> start_dir(
            Some(dir),
        ) is None,
{
}

/// What a terminal is launched with, thing by thing: the size and the directory
/// that were asked for, and an environment of three variables, of which only the
/// language depends on the server.
pub proof fn plan_has_what_was_asked_for(
    cwd: Option<Seq<char>>,
    size: TerminalSize,
    lang: Option<Seq<char>>,
)
    ensures
        ({
            let plan = plan_view(cwd, size, lang);
            &&& plan.geometry.rows == size.rows
            &&& plan.geometry.cols == size.cols
            &&& plan.geometry.pixel_width == 0
            &&& plan.geometry.pixel_height == 0
            &&& plan.cwd == start_dir(cwd)
            &&& plan.env.len() == 3
            &&& plan.env[0].name == "TERM"@ && plan.env[0].value == "xterm-256color"@
            &&& plan.env[1].name == "COLORTERM"@ && plan.env[1].value == "truecolor"@
            &&& plan.env[2].name == "LANG"@
            &&& lang matches Some(own) ==> plan.env[2].value == own
            &&& lang is None ==> plan.env[2].value == "C.UTF-8"@
        }),
{
}

/// A read is reported by the bytes it gave, each in its place; a read of nothing
/// and a failed read are reported as the end of the output.
pub proof fn read_is_reported_byte_for_byte(buf: Seq<u8>, n: usize)
    requires
        n <= buf.len(),
    ensures
        n > 0 ==> (read_report(buf, Some(n)) matches TerminalEventView::Output(bytes)
            && bytes.len() == n && forall|i: int| 0 <= i < n ==> #[trigger] bytes[i] == buf[i]),
        n == 0 ==> read_report(buf, Some(n)) is OutputClosed,
        read_report(buf, None) is OutputClosed,
{
}

/// An exit status is reported as the signed number of the same bits, so that no
/// two statuses are reported alike; a wait that failed is reported as -1.
pub proof fn exit_status_keeps_its_bits(a: u32, b: u32)
    ensures
        wait_code(Some(a)) == wait_code(Some(b)) ==> a == b,
        wait_code(Some(a)) >= 0 ==> wait_code(Some(a)) == a,
        wait_code(Some(a)) < 0 ==> wait_code(Some(a)) + 0x1_0000_0000 == a,
        wait_code(None) == -1,
{
}

/// The bytes of reports of output, one after another.
pub open spec fn reported_bytes(reports: Seq<TerminalEventView>) -> Seq<u8>
    decreases reports.len(),
{
    if reports.len() == 0 {
        seq![]
    } else {
        let rest = reported_bytes(reports.drop_first());
        match reports.first() {
            TerminalEventView::Output(bytes) => bytes + rest,
            _ => rest,
        }
    }
}

/// The bytes that reads gave before the first that gave none or failed.
pub open spec fn bytes_read(reads: Seq<(Seq<u8>, Option<usize>)>) -> Seq<u8>
    decreases reads.len(),
{
    if reads.len() == 0 {
        seq![]
    } else {
        match reads.first().1 {
            Some(n) => if n > 0 {
                reads.first().0.take(n as int) + bytes_read(reads.drop_first())
            } else {
                seq![]
            },
            None => seq![],
        }
    }
}

/// Every byte that was read before the output ended is reported, in order, and
/// nothing else.
pub proof fn all_output_is_reported(reads: Seq<(Seq<u8>, Option<usize>)>)
    ensures
        reported_bytes(read_reports(reads)) == bytes_read(reads),
    decreases reads.len(),
{
    if reads.len() > 0 {
        let first = read_report(reads.first().0, reads.first().1);
        let reports = read_reports(reads);
        if first is OutputClosed {
            assert(reports.drop_first() =~= seq![]);
            assert(reported_bytes(reports.drop_first()) =~= seq![]);
        } else {
            all_output_is_reported(reads.drop_first());
            assert(reports.drop_first() =~= read_reports(reads.drop_first()));
        }
    }
}

/// A launch plan is seen as what its fields hold.
pub proof fn plan_is_seen_as_it_is(plan: LaunchPlan, i: int)
    requires
        0 <= i < plan.env@.len(),
    ensures
        plan@.geometry == plan.geometry,
        plan@.cwd is Some <==> plan.cwd is Some,
        plan.cwd matches Some(dir) ==> plan@.cwd->0 == dir@,
        plan@.env.len() == plan.env@.len(),
        plan@.env[i].name == plan.env@[i].name@,
        plan@.env[i].value == plan.env@[i].value@,
{
}

} // verus!
