//! What the clean-up of a spreadsheet computes on texts: the text of a cell
//! that holds markup, the name of the file that is written, and the report.

use crate::text::{chars_of, join_two, contains_char, texts, trim, trimmed};
use vstd::prelude::*;

verus! {

/// The texts of the text nodes of an HTML fragment, in document order, as
/// `scraper` reads the fragment.
pub uninterp spec fn html_texts(html: Seq<char>) -> Seq<Seq<char>>;

/// `Html::parse_fragment`, then `root_element` and `text` of `scraper`: the
/// text nodes below the root of the fragment, in document order. They depend
/// on the fragment alone.
#[verifier::external_body]
fn fragment_texts(html: &str) -> (pieces: Vec<String>)
    ensures
        texts(pieces@) == html_texts(html@),
{
    scraper::Html::parse_fragment(html).root_element().text().map(|t| t.to_string()).collect()
}

/// The pieces in order, with `separator` between each two.
pub open spec fn joined(pieces: Seq<Seq<char>>, separator: Seq<char>) -> Seq<char>
    decreases pieces.len(),
{
    if pieces.len() == 0 {
        Seq::empty()
    } else if pieces.len() == 1 {
        pieces[0]
    } else {
        joined(pieces.drop_last(), separator) + separator + pieces.last()
    }
}

/// The text of a fragment with the given text nodes: the nodes with a blank
/// between each two, without white space at either end.
pub open spec fn pieces_text(pieces: Seq<Seq<char>>) -> Seq<char> {
    trimmed(joined(pieces, " "@))
}

/// The text of a cell: the cell itself where it holds neither `<` nor `>`,
/// else the text of the cell read as an HTML fragment.
pub open spec fn html_to_text(cell: Seq<char>) -> Seq<char> {
    if !cell.contains('<') && !cell.contains('>') {
        cell
    } else {
        pieces_text(html_texts(cell))
    }
}

/// Joins the text nodes of a fragment into its text.
pub fn text_of_pieces(pieces: &Vec<String>) -> (text: String)
    ensures
        text@ == pieces_text(texts(pieces@)),
{
    let ghost all = texts(pieces@);
    let mut out = String::new();
    let mut i: usize = 0;
    assert(all.take(0) =~= Seq::<Seq<char>>::empty());
    while i < pieces.len()
        invariant
            i <= pieces.len(),
            all == texts(pieces@),
            out@ == joined(all.take(i as int), " "@),
        decreases pieces.len() - i,
    {
        proof {
            let next = all.take(i + 1);
            assert(next.drop_last() =~= all.take(i as int));
            assert(next.last() == pieces@[i as int]@);
            if i == 0 {
                assert(Seq::<char>::empty() + pieces@[0]@ =~= pieces@[0]@);
            }
        }
        if i > 0 {
            out.append(" ");
        }
        out.append(pieces[i].as_str());
        i += 1;
    }
    assert(all.take(pieces.len() as int) =~= all);
    trim(out.as_str())
}

/// Turns a cell that may hold markup into plain text.
pub fn convert_html_to_text(cell: &str) -> (text: String)
    ensures
        text@ == html_to_text(cell@),
{
    let chars = chars_of(cell);
    if !contains_char(&chars, '<') && !contains_char(&chars, '>') {
        return String::from_str(cell);
    }
    let pieces = fragment_texts(cell);
    text_of_pieces(&pieces)
}

/// The name of the file that holds the cleaned sheet of the file with the
/// stem `stem`.
pub fn processed_file_name(stem: &str) -> (name: String)
    ensures
        name@ == stem@ + "-processed.xlsx"@,
{
    join_two(stem, "-processed.xlsx")
}

/// How the clean-up of a spreadsheet ended.
#[derive(Debug, PartialEq, Eq)]
pub enum ProcessOutcome {
    /// There is no file at the path.
    Missing,
    /// The file could not be opened; holds why.
    Unreadable(String),
    /// The file has no first sheet that can be read.
    NoSheet,
    /// The cleaned sheet could not be written; holds why.
    SaveFailed(String),
    /// The cleaned sheet was written to this path.
    Saved(String),
}

/// The mathematical value of a [`ProcessOutcome`].
pub enum ProcessOutcomeView {
    Missing,
    Unreadable(Seq<char>),
    NoSheet,
    SaveFailed(Seq<char>),
    Saved(Seq<char>),
}

impl View for ProcessOutcome {
    type V = ProcessOutcomeView;

    open spec fn view(&self) -> ProcessOutcomeView {
        match *self {
            ProcessOutcome::Missing => ProcessOutcomeView::Missing,
            ProcessOutcome::Unreadable(why) => ProcessOutcomeView::Unreadable(why@),
            ProcessOutcome::NoSheet => ProcessOutcomeView::NoSheet,
            ProcessOutcome::SaveFailed(why) => ProcessOutcomeView::SaveFailed(why@),
            ProcessOutcome::Saved(path) => ProcessOutcomeView::Saved(path@),
        }
    }
}

/// The report of the clean-up of a spreadsheet.
#[derive(Debug, PartialEq, Eq)]
pub struct ProcessResult {
    success: bool,
    message: String,
    output_path: Option<String>,
}

/// The mathematical value of a [`ProcessResult`].
pub struct ProcessResultView {
    pub success: bool,
    pub message: Seq<char>,
    pub output_path: Option<Seq<char>>,
}

impl View for ProcessResult {
    type V = ProcessResultView;

    closed spec fn view(&self) -> ProcessResultView {
        ProcessResultView {
            success: self.success,
            message: self.message@,
            output_path: crate::text::opt_text(self.output_path),
        }
    }
}

/// The report of an outcome: only a sheet that was written counts as a
/// success and has a path.
pub open spec fn report_of(outcome: ProcessOutcomeView) -> ProcessResultView {
    match outcome {
        ProcessOutcomeView::Missing => ProcessResultView {
            success: false,
            message: "文件不存在"@,
            output_path: None,
        },
        ProcessOutcomeView::Unreadable(why) => ProcessResultView {
            success: false,
            message: "无法打开 Excel 文件: "@ + why,
            output_path: None,
        },
        ProcessOutcomeView::NoSheet => ProcessResultView {
            success: false,
            message: "无法读取工作表"@,
            output_path: None,
        },
        ProcessOutcomeView::SaveFailed(why) => ProcessResultView {
            success: false,
            message: "保存文件失败: "@ + why,
            output_path: None,
        },
        ProcessOutcomeView::Saved(path) => ProcessResultView {
            success: true,
            message: "处理成功"@,
            output_path: Some(path),
        },
    }
}

impl ProcessResult {
    /// The report of an outcome.
    pub fn from_outcome(outcome: ProcessOutcome) -> (report: ProcessResult)
        ensures
            report@ == report_of(outcome@),
    {
        match outcome {
            ProcessOutcome::Missing => ProcessResult {
                success: false,
                message: String::from_str("文件不存在"),
                output_path: None,
            },
            ProcessOutcome::Unreadable(why) => ProcessResult {
                success: false,
                message: join_two("无法打开 Excel 文件: ", why.as_str()),
                output_path: None,
            },
            ProcessOutcome::NoSheet => ProcessResult {
                success: false,
                message: String::from_str("无法读取工作表"),
                output_path: None,
            },
            ProcessOutcome::SaveFailed(why) => ProcessResult {
                success: false,
                message: join_two("保存文件失败: ", why.as_str()),
                output_path: None,
            },
            ProcessOutcome::Saved(path) => ProcessResult {
                success: true,
                message: String::from_str("处理成功"),
                output_path: Some(path),
            },
        }
    }

    /// Whether the cleaned sheet was written.
    pub fn success(&self) -> (b: bool)
        ensures
            b == self@.success,
    {
        self.success
    }

    /// The words for the user.
    pub fn message(&self) -> (words: &str)
        ensures
            words@ == self@.message,
    {
        self.message.as_str()
    }

    /// The path of the cleaned sheet.
    pub fn output_path(&self) -> (path: Option<&str>)
        ensures
            match path {
                Some(p) => self@.output_path == Some(p@),
                None => self@.output_path is None,
            },
    {
        match &self.output_path {
            Some(p) => Some(p.as_str()),
            None => None,
        }
    }
}

} // verus!
