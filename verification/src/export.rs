//! Handing recorded exchanges out in one of several formats.
use vstd::prelude::*;
use vstd::string::*;

use crate::json;
use crate::json::Json;
use crate::state;
use crate::state::State;
use crate::text;
use crate::traffic::{Traffic, TrafficHead};

verus! {

broadcast use vstd::string::group_string_axioms;

/// A format in which exchanges are handed out. `Heads` is the list of summaries.
#[derive(Clone, Copy, Debug, PartialEq, Eq, Structural)]
pub enum ExportFormat {
    Markdown,
    Har,
    Curl,
    Json,
    Heads,
}

/// The format that a word names; no word at all asks for the summaries.
pub open spec fn format_of(word: Seq<char>) -> Option<ExportFormat> {
    if word == "markdown"@ {
        Some(ExportFormat::Markdown)
    } else if word == "har"@ {
        Some(ExportFormat::Har)
    } else if word == "curl"@ {
        Some(ExportFormat::Curl)
    } else if word == "json"@ {
        Some(ExportFormat::Json)
    } else if word == ""@ {
        Some(ExportFormat::Heads)
    } else {
        None
    }
}

/// The media type of a format.
pub open spec fn media_type(format: ExportFormat) -> Seq<char> {
    match format {
        ExportFormat::Markdown => "text/markdown; charset=UTF-8"@,
        ExportFormat::Curl => "text/plain; charset=UTF-8"@,
        _ => "application/json; charset=UTF-8"@,
    }
}

impl ExportFormat {
    /// The format that a word names.
    pub fn from_word(word: &str) -> (r: Option<ExportFormat>)
        ensures
            r == format_of(word@),
    {
        if text::same(word, "markdown") {
            Some(ExportFormat::Markdown)
        } else if text::same(word, "har") {
            Some(ExportFormat::Har)
        } else if text::same(word, "curl") {
            Some(ExportFormat::Curl)
        } else if text::same(word, "json") {
            Some(ExportFormat::Json)
        } else if text::same(word, "") {
            Some(ExportFormat::Heads)
        } else {
            None
        }
    }

    /// The media type of the format.
    pub fn content_type(&self) -> (r: &'static str)
        ensures
            r@ == media_type(*self),
    {
        match self {
            ExportFormat::Markdown => "text/markdown; charset=UTF-8",
            ExportFormat::Curl => "text/plain; charset=UTF-8",
            _ => "application/json; charset=UTF-8",
        }
    }
}

/// What has to be rendered to hand all exchanges out.
#[derive(Debug)]
pub enum ExportJob {
    Traffics(ExportFormat, Vec<Traffic>),
    Heads(Vec<TrafficHead>),
}

impl ExportJob {
    /// The format in which the exchanges are handed out.
    pub open spec fn format_spec(self) -> ExportFormat {
        match self {
            ExportJob::Traffics(format, _) => format,
            ExportJob::Heads(_) => ExportFormat::Heads,
        }
    }

    /// The format in which the exchanges are handed out.
    pub fn format(&self) -> (r: ExportFormat)
        ensures
            r == self.format_spec(),
    {
        match self {
            ExportJob::Traffics(format, _) => *format,
            ExportJob::Heads(_) => ExportFormat::Heads,
        }
    }
}

impl<W> State<W> {
    /// The exchange to be handed out under a number, or the text of the error.
    pub fn export_traffic(&self, id: usize) -> (r: Result<Traffic, String>)
        requires
            self.wf(),
        ensures
            match r {
                Ok(t) => 1 <= id <= self@.records.len() && t@ == self@.records[id - 1],
                Err(error) => !(1 <= id <= self@.records.len()) && error@ == "Not found traffic "@
                    + text::decimal(id as nat),
            },
    {
        match self.get_traffic(id) {
            Some(t) => Ok(t),
            None => Err(
                text::chain("Not found traffic ", text::decimal_text(id).as_str()),
            ),
        }
    }

    /// What has to be rendered to hand all exchanges out in a format, or the text of the error.
    pub fn export_all_traffics(&self, format: &str) -> (r: Result<ExportJob, String>)
        requires
            self.wf(),
        ensures
            match r {
                Ok(ExportJob::Traffics(f, list)) => format_of(format@) == Some(f) && f
                    != ExportFormat::Heads && state::record_views(list@) == self@.records,
                Ok(ExportJob::Heads(heads)) => format_of(format@) == Some(ExportFormat::Heads)
                    && state::head_views(heads@) == state::all_heads(self@.records),
                Err(error) => format_of(format@) is None && error@ == "Unsupported format: "@
                    + format@,
            },
    {
        match ExportFormat::from_word(format) {
            Some(ExportFormat::Heads) => Ok(ExportJob::Heads(self.list_heads())),
            Some(f) => Ok(ExportJob::Traffics(f, self.list_traffics())),
            None => Err(text::chain("Unsupported format: ", format)),
        }
    }
}

/// Puts rendered exchanges together: each as it is, with an empty line between two.
fn export_texts(format: ExportFormat, rendered: &Vec<String>) -> (r: (String, &'static str))
    ensures
        r.0@ == text::joined(text::texts(rendered@), "\n\n"@),
        r.1@ == media_type(format),
{
    (text::join(rendered, "\n\n"), format.content_type())
}

/// The values that are there, in order.
pub open spec fn present(values: Seq<Option<serde_json::Value>>) -> Seq<serde_json::Value>
    decreases values.len(),
{
    if values.len() == 0 {
        Seq::empty()
    } else {
        let rest = present(values.drop_last());
        match values.last() {
            Some(v) => rest.push(v),
            None => rest,
        }
    }
}

/// The entries of an archive: those exchanges that make one, in order.
pub fn har_entries(values: Vec<Option<serde_json::Value>>) -> (r: Vec<serde_json::Value>)
    ensures
        r@ == present(values@),
{
    let mut r: Vec<serde_json::Value> = Vec::new();
    let ghost all = values@;
    for value in it: values
        invariant
            it.seq() == all,
            r@ == present(all.take(it.index())),
    {
        proof {
            assert(all.take(it.index() + 1).drop_last() =~= all.take(it.index()));
            assert(all.take(it.index() + 1).last() == value);
        }
        match value {
            Some(v) => {
                r.push(v);
            },
            None => {},
        }
    }
    proof {
        assert(all.take(all.len() as int) =~= all);
    }
    r
}

/// Writes a document out, or gives the text of the error.
fn export_document(document: &serde_json::Value) -> (r: Result<(String, &'static str), String>)
    ensures
        match r {
            Ok((output, media)) => json::pretty_json(json::json_view(*document)) == Ok::<
                Seq<char>,
                Seq<char>,
            >(output@) && media@ == media_type(ExportFormat::Json),
            Err(error) => json::pretty_json(json::json_view(*document)) == Err::<
                Seq<char>,
                Seq<char>,
            >(error@),
        },
{
    match json::pretty(document) {
        Ok(output) => Ok((output, ExportFormat::Json.content_type())),
        Err(error) => Err(error),
    }
}

/// Writes a list of values out as one document, or gives the text of the error.
fn export_values(values: Vec<serde_json::Value>) -> (r: Result<(String, &'static str), String>)
    ensures
        match r {
            Ok((output, media)) => json::pretty_json(Json::List(json::json_views(values@))) == Ok::<
                Seq<char>,
                Seq<char>,
            >(output@) && media@ == media_type(ExportFormat::Json),
            Err(error) => json::pretty_json(Json::List(json::json_views(values@))) == Err::<
                Seq<char>,
                Seq<char>,
            >(error@),
        },
{
    export_document(&json::list_value(values))
}

/// Exchanges as they were rendered: each as a text, each as a value, all as one document, or all
/// written out already.
#[derive(Debug)]
pub enum Rendered {
    Texts(Vec<String>),
    Values(Vec<serde_json::Value>),
    Document(serde_json::Value),
    Written(String),
}

/// Whether exchanges were rendered as a format asks for: texts for Markdown and cURL, values for
/// JSON, a document for an archive, and the summaries written out.
pub open spec fn suits(format: ExportFormat, rendered: Rendered) -> bool {
    match format {
        ExportFormat::Markdown | ExportFormat::Curl => rendered is Texts,
        ExportFormat::Har => rendered is Document,
        ExportFormat::Json => rendered is Values,
        ExportFormat::Heads => rendered is Written,
    }
}

/// What rendered exchanges come to: texts with an empty line between two, values and documents
/// written out as JSON.
pub open spec fn put_together(rendered: Rendered) -> Result<Seq<char>, Seq<char>> {
    match rendered {
        Rendered::Texts(parts) => Ok(text::joined(text::texts(parts@), "\n\n"@)),
        Rendered::Values(values) => json::pretty_json(Json::List(json::json_views(values@))),
        Rendered::Document(document) => json::pretty_json(json::json_view(document)),
        Rendered::Written(output) => Ok(output@),
    }
}

/// Puts the rendered exchanges of a format together, with the media type of the format, or gives
/// the text of the error.
pub fn finish_all(format: ExportFormat, rendered: Rendered) -> (r: Result<
    (String, &'static str),
    String,
>)
    requires
        suits(format, rendered),
    ensures
        match (r, put_together(rendered)) {
            (Ok((output, media)), Ok(contents)) => output@ == contents && media@ == media_type(
                format,
            ),
            (Err(error), Err(contents)) => error@ == contents,
            _ => false,
        },
{
    match rendered {
        Rendered::Texts(parts) => Ok(export_texts(format, &parts)),
        Rendered::Values(values) => export_values(values),
        Rendered::Document(document) => export_document(&document),
        Rendered::Written(output) => Ok((output, format.content_type())),
    }
}

/// Every format has its media type: Markdown and cURL are texts, all else is JSON.
pub proof fn law_formats_have_their_media_types(format: ExportFormat)
    ensures
        media_type(format) == (match format {
            ExportFormat::Markdown => "text/markdown; charset=UTF-8"@,
            ExportFormat::Curl => "text/plain; charset=UTF-8"@,
            ExportFormat::Har | ExportFormat::Json | ExportFormat::Heads => {
                "application/json; charset=UTF-8"@
            },
        }),
{
}

/// A word names a format exactly where it is one of the four words for them, and no word at all
/// asks for the summaries.
pub proof fn law_words_name_formats(word: Seq<char>)
    ensures
        format_of(word) == Some(ExportFormat::Markdown) <==> word == "markdown"@,
        format_of(word) == Some(ExportFormat::Har) <==> word == "har"@,
        format_of(word) == Some(ExportFormat::Curl) <==> word == "curl"@,
        format_of(word) == Some(ExportFormat::Json) <==> word == "json"@,
        format_of(word) == Some(ExportFormat::Heads) <==> word.len() == 0,
        format_of(word) is None <==> word != "markdown"@ && word != "har"@ && word != "curl"@ && word
            != "json"@ && word.len() > 0,
{
    reveal_strlit("");
    reveal_strlit("markdown");
    reveal_strlit("har");
    reveal_strlit("curl");
    reveal_strlit("json");
    assert("markdown"@.len() == 8);
    assert("har"@.len() == 3);
    assert("curl"@.len() == 4 && "curl"@[0] == 'c');
    assert("json"@.len() == 4 && "json"@[0] == 'j');
    if word.len() == 0 {
        assert(word =~= ""@);
    }
}

/// The entries of an archive are those exchanges that make one, in their order: what a list gives
/// is what its two parts give.
pub proof fn law_archives_keep_their_order(
    first: Seq<Option<serde_json::Value>>,
    second: Seq<Option<serde_json::Value>>,
    value: serde_json::Value,
)
    ensures
        present(first + second) == present(first) + present(second),
        present(seq![Some(value)]) == seq![value],
        present(seq![None]).len() == 0,
    decreases second.len(),
{
    reveal_with_fuel(present, 2);
    assert(seq![Some(value)].drop_last() =~= Seq::empty());
    assert(present(seq![Some(value)]) =~= seq![value]);
    assert(seq![None::<serde_json::Value>].drop_last() =~= Seq::empty());
    let all = first + second;
    if second.len() == 0 {
        assert(all =~= first);
        assert(present(first) + present(second) =~= present(first));
    } else {
        law_archives_keep_their_order(first, second.drop_last(), value);
        assert(all.drop_last() =~= first + second.drop_last());
        assert(all.last() == second.last());
        assert(present(all) =~= present(first) + present(second));
    }
}

/// Texts are put together with an empty line between two, and one alone is handed out as it is;
/// what was written out already is handed out as it is, too.
pub proof fn law_texts_are_put_together(
    first: Vec<String>,
    second: Vec<String>,
    both: Vec<String>,
    written: String,
)
    requires
        first@.len() > 0,
        second@.len() > 0,
        both@ == first@ + second@,
    ensures
        put_together(Rendered::Texts(both)) == Ok::<Seq<char>, Seq<char>>(
            put_together(Rendered::Texts(first))->Ok_0 + seq!['\n', '\n'] + put_together(
                Rendered::Texts(second),
            )->Ok_0,
        ),
        first@.len() == 1 ==> put_together(Rendered::Texts(first)) == Ok::<Seq<char>, Seq<char>>(
            first@[0]@,
        ),
        put_together(Rendered::Written(written)) == Ok::<Seq<char>, Seq<char>>(written@),
{
    reveal_strlit("\n\n");
    assert("\n\n"@ =~= seq!['\n', '\n']);
    assert(text::texts(both@) =~= text::texts(first@) + text::texts(second@));
    text::law_separators_stand_between(
        text::texts(first@),
        text::texts(second@),
        first@[0]@,
        "\n\n"@,
    );
    if first@.len() == 1 {
        assert(text::texts(first@) =~= seq![first@[0]@]);
    }
}

/// Values are written out as one list of them, in order, and a document as it is.
pub proof fn law_values_are_written_as_a_list(
    values: Vec<serde_json::Value>,
    document: serde_json::Value,
)
    ensures
        put_together(Rendered::Values(values)) == json::pretty_json(
            Json::List(Seq::new(values@.len(), |i: int| json::json_view(values@[i]))),
        ),
        put_together(Rendered::Document(document)) == json::pretty_json(json::json_view(document)),
{
}

/// A job is done in the format that it holds, and the summaries in their own.
pub proof fn law_jobs_have_their_format(
    format: ExportFormat,
    list: Vec<Traffic>,
    heads: Vec<TrafficHead>,
)
    ensures
        ExportJob::Traffics(format, list).format_spec() == format,
        ExportJob::Heads(heads).format_spec() == ExportFormat::Heads,
{
}

} // verus!
