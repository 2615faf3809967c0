use vstd::prelude::*;
use crate::model::{FileView, MetadataView, ParseResult, results_view};

verus! {

pub open spec fn page_head() -> Seq<char> {
    "<!DOCTYPE html>
<html lang='en'>
  <head>
    <meta charset='UTF-8' />
    <meta name='viewport' content='width=device-width, initial-scale=1.0' />
    <title>API Reference</title>

    <link rel='stylesheet' href='style.css' />
    <style></style>
  </head>
  <body>
    <div id='header'>
      <h2>API Reference</h2>
    </div>
    <div id='main'>\n"@
}

pub open spec fn page_tail() -> Seq<char> {
    "\t</body>\n</html>"@
}

/// The first comment line of a handler, when it has one.
pub open spec fn summary_markup(comment: Option<Seq<Seq<char>>>) -> Seq<char> {
    match comment {
        Some(lines) => if lines.len() > 0 {
            "\t\t\t<span>"@ + lines[0] + "</span>\n"@
        } else {
            Seq::empty()
        },
        None => Seq::empty(),
    }
}

/// One listing row: the method (which also names its style class), the
/// file path and the summary line.
pub open spec fn row_markup(path: Seq<char>, m: MetadataView) -> Seq<char> {
    "\t\t<div class='api-item'>\n"@ + "\t\t\t<span class='api-method "@ + m.method + "'>"@
        + m.method + "</span>\n"@ + "\t\t\t<span>"@ + path + "</span>\n"@ + summary_markup(
        m.comment,
    ) + "\t\t</div>\n"@
}

pub open spec fn file_rows(path: Seq<char>, ms: Seq<MetadataView>) -> Seq<char>
    decreases ms.len(),
{
    if ms.len() == 0 {
        Seq::empty()
    } else {
        file_rows(path, ms.drop_last()) + row_markup(path, ms.last())
    }
}

pub open spec fn all_rows(fs: Seq<FileView>) -> Seq<char>
    decreases fs.len(),
{
    if fs.len() == 0 {
        Seq::empty()
    } else {
        all_rows(fs.drop_last()) + file_rows(fs.last().path, fs.last().methods)
    }
}

/// The listing page: one row per handler, files in the given order and
/// handlers in declaration order.
pub open spec fn page_markup(fs: Seq<FileView>) -> Seq<char> {
    page_head() + all_rows(fs) + page_tail()
}

pub open spec fn stylesheet_text() -> Seq<char> {
    "*,
::before,
::after {
  box-sizing: border-box;
}
html {
  font-family: system-ui, 'Segoe UI', Roboto, Helvetica, Arial, sans-serif,
    'Apple Color Emoji', 'Segoe UI Emoji';
  line-height: 1.15;
  -webkit-text-size-adjust: 100%;
  -moz-tab-size: 4;
  tab-size: 4;
}
body {
  margin: 0;
}

#header {
  background-color: #161b22;
  color: white;
  padding: 0.1px;
  border-bottom: 6px solid orange;
}

#header h2 {
  margin-left: 10px;
}

#main {
  margin: 10px;
}

.api-item {
  display: flex;
  align-items: center;
  background-color: rgb(203, 228, 237);
  border: 1px solid blue;
  height: 60px;
  border-radius: 4px;
  padding: 10px;
  margin-bottom: 10px;
  font-weight: bold;
}

.api-item span {
  margin-inline: 10px;
}

.api-item:has(:nth-child(3)) :last-child {
  color: gray;
  font-weight: 400;
}

.api-method {
  font-size: 16px;
  box-shadow: 0 4px 8px 0 rgba(0, 0, 0, 0.2), 0 6px 20px 0 rgba(0, 0, 0, 0.19);
  padding: 10px;
  border-radius: 4px;
}

.api-method.GET {
  background-color: lightgreen;
}

.api-method.POST {
  background-color: lightskyblue;
}

.api-method.DELETE {
  background-color: lightcoral;
}

.api-method.PATCH {
  background-color: rgb(214, 186, 186);
}

.api-method.PUT {
  background-color: rgb(250, 250, 142);
}
"@
}

/// The stylesheet the listing page links to: a shared style for every
/// method row, and a distinct colour for GET, POST, PUT, PATCH and DELETE.
pub fn stylesheet() -> (r: &'static str)
    ensures
        r@ == stylesheet_text(),
{
    "*,
::before,
::after {
  box-sizing: border-box;
}
html {
  font-family: system-ui, 'Segoe UI', Roboto, Helvetica, Arial, sans-serif,
    'Apple Color Emoji', 'Segoe UI Emoji';
  line-height: 1.15;
  -webkit-text-size-adjust: 100%;
  -moz-tab-size: 4;
  tab-size: 4;
}
body {
  margin: 0;
}

#header {
  background-color: #161b22;
  color: white;
  padding: 0.1px;
  border-bottom: 6px solid orange;
}

#header h2 {
  margin-left: 10px;
}

#main {
  margin: 10px;
}

.api-item {
  display: flex;
  align-items: center;
  background-color: rgb(203, 228, 237);
  border: 1px solid blue;
  height: 60px;
  border-radius: 4px;
  padding: 10px;
  margin-bottom: 10px;
  font-weight: bold;
}

.api-item span {
  margin-inline: 10px;
}

.api-item:has(:nth-child(3)) :last-child {
  color: gray;
  font-weight: 400;
}

.api-method {
  font-size: 16px;
  box-shadow: 0 4px 8px 0 rgba(0, 0, 0, 0.2), 0 6px 20px 0 rgba(0, 0, 0, 0.19);
  padding: 10px;
  border-radius: 4px;
}

.api-method.GET {
  background-color: lightgreen;
}

.api-method.POST {
  background-color: lightskyblue;
}

.api-method.DELETE {
  background-color: lightcoral;
}

.api-method.PATCH {
  background-color: rgb(214, 186, 186);
}

.api-method.PUT {
  background-color: rgb(250, 250, 142);
}
"
}

fn append_row(page: &mut String, path: &String, method_type: &String, comment: &Option<Vec<String>>)
    ensures
        final(page)@ == old(page)@ + row_markup(
            path@,
            MetadataView { method: method_type@, comment: crate::model::lines_view(*comment) },
        ),
{
    page.append("\t\t<div class='api-item'>\n");
    page.append("\t\t\t<span class='api-method ");
    page.append(method_type.as_str());
    page.append("'>");
    page.append(method_type.as_str());
    page.append("</span>\n");
    page.append("\t\t\t<span>");
    page.append(path.as_str());
    page.append("</span>\n");
    if let Some(lines) = comment {
        if lines.len() > 0 {
            page.append("\t\t\t<span>");
            page.append(lines[0].as_str());
            page.append("</span>\n");
        }
    }
    page.append("\t\t</div>\n");
    let ghost m = MetadataView { method: method_type@, comment: crate::model::lines_view(*comment) };
    assert(page@ =~= old(page)@ + row_markup(path@, m));
}

/// Renders the listing page of `results`.
pub fn html_page(results: &Vec<ParseResult>) -> (r: String)
    ensures
        r@ == page_markup(results_view(results@)),
{
    let mut page = String::from_str("<!DOCTYPE html>
<html lang='en'>
  <head>
    <meta charset='UTF-8' />
    <meta name='viewport' content='width=device-width, initial-scale=1.0' />
    <title>API Reference</title>

    <link rel='stylesheet' href='style.css' />
    <style></style>
  </head>
  <body>
    <div id='header'>
      <h2>API Reference</h2>
    </div>
    <div id='main'>\n");
    let mut f: usize = 0;
    while f < results.len()
        invariant
            f <= results@.len(),
            page@ == page_head() + all_rows(results_view(results@).subrange(0, f as int)),
        decreases results@.len() - f,
    {
        let file = &results[f];
        let ghost before = page@;
        let mut k: usize = 0;
        while k < file.method_metadata.len()
            invariant
                k <= file.method_metadata@.len(),
                page@ == before + file_rows(file@.path, file@.methods.subrange(0, k as int)),
            decreases file.method_metadata@.len() - k,
        {
            let m = &file.method_metadata[k];
            append_row(&mut page, &file.path, &m.method_type, &m.comment);
            assert(file@.methods.subrange(0, k + 1).drop_last() =~= file@.methods.subrange(
                0,
                k as int,
            ));
            k = k + 1;
        }
        assert(file@.methods.subrange(0, file@.methods.len() as int) =~= file@.methods);
        assert(results_view(results@).subrange(0, f + 1).drop_last() =~= results_view(
            results@,
        ).subrange(0, f as int));
        f = f + 1;
    }
    assert(results_view(results@).subrange(0, results@.len() as int) =~= results_view(results@));
    page.append("\t</body>\n</html>");
    page
}

/// A file's handler is rendered as a row of the page whatever its method
/// name: adding the file appends exactly that row.
pub proof fn lemma_every_method_listed(fs: Seq<FileView>, path: Seq<char>, m: MetadataView)
    ensures
        page_markup(fs.push(FileView { path, methods: seq![m] })) == page_head() + all_rows(fs)
            + row_markup(path, m) + page_tail(),
{
    let f = FileView { path, methods: seq![m] };
    assert(fs.push(f).drop_last() =~= fs);
    assert(seq![m].drop_last() =~= Seq::<MetadataView>::empty());
    assert(seq![m].last() == m);
    assert(file_rows(path, Seq::<MetadataView>::empty()) == Seq::<char>::empty());
    assert(file_rows(path, seq![m]) == file_rows(path, Seq::<MetadataView>::empty())
        + row_markup(path, m));
    assert(file_rows(path, seq![m]) =~= row_markup(path, m));
    assert(all_rows(fs.push(f)) =~= all_rows(fs) + row_markup(path, m));
}

} // verus!
