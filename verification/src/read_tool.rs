//! The Read tool: numbered lines of a text file, and directory listings.
use vstd::prelude::*;

use crate::json::{item_values, jstr, member_values, members, put, Json, JsonValue};
use crate::llm::{property_schema, schema_property, ToolDefinition};
use crate::text::{
    byte_len, bytes_within, decimal, decimal_text, has_suffix, in_order, join, joined, joined_parts_read_back,
    lemma_byte_len_concat, lemma_pieces_nonempty, lemma_pieces_without, line_list, lines_of, pieces,
    push_decimal, sorted_texts, texts,
};

verus! {

/// The tool that reads files and lists directories.
#[derive(Debug, Clone, Copy)]
pub struct ReadTool;

impl ReadTool {
    /// The name under which the model calls the tool.
    pub fn name(&self) -> (r: &'static str)
        ensures
            r@ == "Read"@,
    {
        "Read"
    }

    /// The tool as the model sees it.
    pub fn definition(&self) -> (r: ToolDefinition)
        ensures
            r.name@ == "Read"@,
            r.description@
                == "Read a file or list a directory. Output is truncated to 2000 lines or 50KB — use offset/limit for large files."@,
            r.parameters@ == read_parameters(),
    {
        let mut properties = members();
        put(
            &mut properties,
            "path",
            schema_property("string", "Relative or absolute file or directory path"),
        );
        put(&mut properties, "offset", schema_property("integer", "1-based start line"));
        put(
            &mut properties,
            "limit",
            schema_property("integer", "Maximum number of lines to read"),
        );
        proof {
            assert(member_values(properties@) == read_properties());
        }
        let required = vec![Json::text("path")];
        proof {
            assert(item_values(required@) == seq![jstr("path"@)]);
        }
        let mut parameters = members();
        put(&mut parameters, "type", Json::text("object"));
        put(&mut parameters, "properties", Json::object(properties));
        put(&mut parameters, "required", Json::array(required));
        proof {
            assert(member_values(parameters@) == read_parameters()->Object_0);
        }
        ToolDefinition {
            name: "Read".to_string(),
            description: "Read a file or list a directory. Output is truncated to 2000 lines or 50KB — use offset/limit for large files.".to_string(),
            parameters: Json::object(parameters),
        }
    }
}

/// The parameters of the tool, each with its schema.
pub open spec fn read_properties() -> Seq<(Seq<char>, JsonValue)> {
    seq![
        ("path"@, property_schema("string"@, "Relative or absolute file or directory path"@)),
        ("offset"@, property_schema("integer"@, "1-based start line"@)),
        ("limit"@, property_schema("integer"@, "Maximum number of lines to read"@)),
    ]
}

/// The schema of the arguments of the tool.
pub open spec fn read_parameters() -> JsonValue {
    JsonValue::Object(
        seq![
            ("type"@, jstr("object"@)),
            ("properties"@, JsonValue::Object(read_properties())),
            ("required"@, JsonValue::Array(seq![jstr("path"@)])),
        ],
    )
}

/// The most bytes of a file that are shown.
pub const MAX_READ_BYTES: usize = 51200;

/// The most lines of a file that are shown.
pub const MAX_READ_LINES: usize = 2000;

/// The texts of a list of string slices.
pub open spec fn str_texts(v: Seq<&str>) -> Seq<Seq<char>> {
    Seq::new(v.len(), |i: int| v[i]@)
}

/// A line as it is added to a text that holds the lines before it.
pub open spec fn next_line(lines: Seq<Seq<char>>, i: int) -> Seq<char> {
    if i == 0 {
        lines[i]
    } else {
        "\n"@ + lines[i]
    }
}

/// The lines from `i` on added to `text` as long as both limits hold, and whether
/// one of them cut the text short.
pub open spec fn head_from(
    lines: Seq<Seq<char>>,
    max_lines: int,
    max_bytes: int,
    i: int,
    text: Seq<char>,
) -> (Seq<char>, bool)
    decreases lines.len() - i,
{
    if i >= lines.len() {
        (text, false)
    } else if i >= max_lines || byte_len(text) + byte_len(next_line(lines, i)) > max_bytes {
        (text, true)
    } else {
        head_from(lines, max_lines, max_bytes, i + 1, text + next_line(lines, i))
    }
}

/// The first lines that fit into both limits, and whether there are more.
pub open spec fn head(lines: Seq<Seq<char>>, max_lines: int, max_bytes: int) -> (Seq<char>, bool) {
    head_from(lines, max_lines, max_bytes, 0, Seq::empty())
}

/// Whether the first `k` lines, joined, fit into both limits.
pub open spec fn fits(lines: Seq<Seq<char>>, max_lines: int, max_bytes: int, k: int) -> bool {
    k <= max_lines && byte_len(joined(lines.take(k), "\n"@)) <= max_bytes
}

proof fn lemma_next_joined(lines: Seq<Seq<char>>, i: int)
    requires
        0 <= i < lines.len(),
    ensures
        joined(lines.take(i + 1), "\n"@) == joined(lines.take(i), "\n"@) + next_line(lines, i),
        byte_len(joined(lines.take(i + 1), "\n"@)) == byte_len(joined(lines.take(i), "\n"@))
            + byte_len(next_line(lines, i)),
{
    let text = joined(lines.take(i), "\n"@);
    let more = text + next_line(lines, i);
    lemma_byte_len_concat(text, next_line(lines, i));
    assert(lines.take(i + 1).drop_last() == lines.take(i));
    if i == 0 {
        assert(lines.take(0) == Seq::<Seq<char>>::empty());
        assert(more == lines[0]);
    } else {
        assert(more == text + "\n"@ + lines[i]);
    }
}

proof fn lemma_joined_grows(lines: Seq<Seq<char>>, i: int, j: int)
    requires
        0 <= i <= j <= lines.len(),
    ensures
        byte_len(joined(lines.take(i), "\n"@)) <= byte_len(joined(lines.take(j), "\n"@)),
    decreases j - i,
{
    if i < j {
        lemma_joined_grows(lines, i, j - 1);
        lemma_next_joined(lines, j - 1);
    }
}

proof fn lemma_head_from(
    lines: Seq<Seq<char>>,
    max_lines: int,
    max_bytes: int,
    i: int,
    text: Seq<char>,
) -> (k: int)
    requires
        0 <= i <= lines.len(),
        i <= max_lines,
        byte_len(text) <= max_bytes,
        text == joined(lines.take(i), "\n"@),
    ensures
        i <= k <= lines.len(),
        k <= max_lines,
        head_from(lines, max_lines, max_bytes, i, text).0 == joined(lines.take(k), "\n"@),
        byte_len(joined(lines.take(k), "\n"@)) <= max_bytes,
        head_from(lines, max_lines, max_bytes, i, text).1 == (k < lines.len()),
        forall|j: int| k < j <= lines.len() ==> !#[trigger] fits(lines, max_lines, max_bytes, j),
    decreases lines.len() - i,
{
    if i >= lines.len() {
        i
    } else if i >= max_lines || byte_len(text) + byte_len(next_line(lines, i)) > max_bytes {
        lemma_next_joined(lines, i);
        assert forall|j: int| i < j <= lines.len() implies !#[trigger] fits(
            lines,
            max_lines,
            max_bytes,
            j,
        ) by {
            lemma_joined_grows(lines, i + 1, j);
        }
        i
    } else {
        lemma_next_joined(lines, i);
        lemma_head_from(lines, max_lines, max_bytes, i + 1, text + next_line(lines, i))
    }
}

/// What is shown are the first lines, joined, within both limits; it is cut short
/// exactly when lines are left out, and no more of them would have fitted.
pub proof fn head_keeps_to_limits(lines: Seq<Seq<char>>, max_lines: int, max_bytes: int)
    requires
        0 <= max_lines,
        0 <= max_bytes,
    ensures
        byte_len(head(lines, max_lines, max_bytes).0) <= max_bytes,
        exists|k: int|
            {
                &&& 0 <= k <= lines.len()
                &&& fits(lines, max_lines, max_bytes, k)
                &&& head(lines, max_lines, max_bytes).0 == joined(#[trigger] lines.take(k), "\n"@)
                &&& head(lines, max_lines, max_bytes).1 == (k < lines.len())
                &&& forall|j: int|
                    k < j <= lines.len() ==> !#[trigger] fits(lines, max_lines, max_bytes, j)
            },
{
    assert(lines.take(0) == Seq::<Seq<char>>::empty());
    assert(vstd::utf8::encode_utf8(Seq::<char>::empty()).len() == 0);
    let k = lemma_head_from(lines, max_lines, max_bytes, 0, Seq::empty());
    assert(head(lines, max_lines, max_bytes).0 == joined(lines.take(k), "\n"@));
}

proof fn lemma_lines_without_feed(content: Seq<char>)
    ensures
        forall|i: int| 0 <= i < line_list(content).len() ==> !(#[trigger] line_list(
            content,
        )[i]).contains('\n'),
{
    let parts = pieces(content, '\n');
    lemma_pieces_without(content, '\n', 0);
    lemma_pieces_nonempty(content, '\n', 0);
    assert forall|i: int| 0 <= i < line_list(content).len() implies !(#[trigger] line_list(
        content,
    )[i]).contains('\n') by {
        let part = parts[i];
        let line = line_list(content)[i];
        assert(!part.contains('\n'));
        if line.contains('\n') {
            let j = choose|j: int| 0 <= j < line.len() && line[j] == '\n';
            assert(part[j] == '\n');
        }
    }
}

/// Reading on where the notice says skips no line: the lines that are counted as shown
/// are at most those that were shown. Only an empty last line is not counted.
pub proof fn continuing_skips_no_line(content: Seq<char>, start: int, end: int)
    requires
        0 <= start <= end <= line_list(content).len(),
    ensures
        ({
            let lines = line_list(content).subrange(start, end);
            let (text, cut) = head(lines, 2000, 51200);
            let seen = line_list(text).len();
            exists|k: int|
                {
                    &&& 0 <= k <= lines.len()
                    &&& text == joined(#[trigger] lines.take(k), "\n"@)
                    &&& cut == (k < lines.len())
                    &&& seen <= k
                    &&& k > 0 && lines[k - 1].len() > 0 ==> seen == k
                }
        }),
{
    let lines = line_list(content).subrange(start, end);
    let (text, cut) = head(lines, 2000, 51200);
    head_keeps_to_limits(lines, 2000, 51200);
    let k = choose|k: int|
        0 <= k <= lines.len() && fits(lines, 2000, 51200, k) && text == joined(
            #[trigger] lines.take(k),
            "\n"@,
        ) && cut == (k < lines.len());
    reveal_strlit("\n");
    assert("\n"@ == seq!['\n']);
    let taken = lines.take(k);
    lemma_lines_without_feed(content);
    lemma_pieces_nonempty(text, '\n', 0);
    if k == 0 {
        assert(text == Seq::<char>::empty());
        assert(pieces(text, '\n') == seq![text.skip(0)]);
    } else {
        assert forall|i: int| 0 <= i < taken.len() implies !(#[trigger] taken[i]).contains('\n') by {
            assert(taken[i] == line_list(content)[start + i]);
        }
        joined_parts_read_back(taken, '\n');
        assert(pieces(text, '\n').last() == lines[k - 1]);
    }
    assert(line_list(text).len() <= k);
    assert(lines.take(k) == taken);
}

/// The first lines that fit into both limits, and whether there are more.
pub fn truncate_head(lines: &[&str], max_lines: usize, max_bytes: usize) -> (r: (String, bool))
    ensures
        (r.0@, r.1) == head(str_texts(lines@), max_lines as int, max_bytes as int),
{
    let ghost all = str_texts(lines@);
    let mut result = String::new();
    let mut used: usize = 0;
    let mut i: usize = 0;
    proof {
        assert(vstd::utf8::encode_utf8(Seq::<char>::empty()).len() == 0);
        assert(result@ == Seq::<char>::empty());
    }
    while i < lines.len()
        invariant
            i <= lines@.len(),
            lines@.len() == lines.len(),
            all == str_texts(lines@),
            used == byte_len(result@),
            used <= max_bytes,
            head(all, max_lines as int, max_bytes as int) == head_from(
                all,
                max_lines as int,
                max_bytes as int,
                i as int,
                result@,
            ),
        decreases lines.len() - i,
    {
        if i >= max_lines {
            return (result, true);
        }
        let mut next = String::new();
        if i > 0 {
            next.append("\n");
        }
        next.append(lines[i]);
        proof {
            assert(all[i as int] == lines@[i as int]@);
            assert(next@ == next_line(all, i as int));
        }
        match bytes_within(next.as_str(), max_bytes - used) {
            None => {
                return (result, true);
            },
            Some(n) => {
                proof {
                    lemma_byte_len_concat(result@, next@);
                }
                result.append(next.as_str());
                used += n;
            },
        }
        i += 1;
    }
    (result, false)
}

/// The lines with their numbers, the first of which is `first`.
pub open spec fn numbered(lines: Seq<Seq<char>>, first: int) -> Seq<Seq<char>> {
    Seq::new(
        lines.len(),
        |i: int| "L"@ + decimal((first + i) as nat) + ":"@ + lines[i],
    )
}

/// The line at which reading starts, counted from 0.
pub open spec fn start_of(offset: Option<usize>) -> int {
    match offset {
        Some(n) => if n == 0 {
            0
        } else {
            n - 1
        },
        None => 0,
    }
}

/// The line before which reading ends.
pub open spec fn end_of(total: int, start: int, limit: Option<usize>) -> int {
    match limit {
        Some(n) => if start + n < total {
            start + n
        } else {
            total
        },
        None => total,
    }
}

/// What is shown of a file, or why nothing is.
pub open spec fn shown(content: Seq<char>, offset: Option<usize>, limit: Option<usize>) -> Result<
    Seq<char>,
    Seq<char>,
> {
    let all = line_list(content);
    let start = start_of(offset);
    if all.len() == 0 {
        Ok(Seq::empty())
    } else if start >= all.len() {
        Err(
            "offset "@ + decimal(
                match offset {
                    Some(n) => n as nat,
                    None => 1,
                },
            ) + " is beyond end of file ("@ + decimal(all.len()) + " lines total)"@,
        )
    } else {
        let (text, cut) = head(
            all.subrange(start, end_of(all.len() as int, start, limit)),
            2000,
            51200,
        );
        let seen = line_list(text);
        let listing = joined(numbered(seen, start + 1), "\n"@);
        if cut {
            Ok(
                listing + "\n\n[Showing lines "@ + decimal((start + 1) as nat) + "-"@ + decimal(
                    (start + seen.len()) as nat,
                ) + " of "@ + decimal(all.len()) + ". Use offset="@ + decimal(
                    (start + seen.len() + 1) as nat,
                ) + " to continue.]"@,
            )
        } else {
            Ok(listing)
        }
    }
}

/// A result with its texts.
pub open spec fn result_texts(r: Result<String, String>) -> Result<Seq<char>, Seq<char>> {
    match r {
        Ok(text) => Ok(text@),
        Err(message) => Err(message@),
    }
}

fn number_lines(lines: &Vec<String>, first: u128) -> (r: Vec<String>)
    requires
        first + lines.len() <= u128::MAX,
    ensures
        texts(r@) == numbered(texts(lines@), first as int),
{
    let mut out: Vec<String> = Vec::new();
    let ghost all = numbered(texts(lines@), first as int);
    let mut i: usize = 0;
    while i < lines.len()
        invariant
            i <= lines.len(),
            first + lines.len() <= u128::MAX,
            all == numbered(texts(lines@), first as int),
            texts(out@) == all.take(i as int),
        decreases lines.len() - i,
    {
        let ghost before = texts(out@);
        let mut line = "L".to_string();
        push_decimal(&mut line, first + i as u128);
        line.append(":");
        line.append(lines[i].as_str());
        let ghost added = line@;
        out.push(line);
        proof {
            assert(all[i as int] == added);
            assert(texts(out@) == before.push(added));
            assert(all.take(i + 1) == all.take(i as int).push(added));
        }
        i += 1;
    }
    proof {
        assert(all.take(all.len() as int) == all);
    }
    out
}

/// What is shown of a text file: numbered lines from `offset` on, at most `limit`
/// of them, and a notice where the output was cut short.
pub fn format_file_content(content: &str, offset: Option<usize>, limit: Option<usize>) -> (r: Result<
    String,
    String,
>)
    ensures
        result_texts(r) == shown(content@, offset, limit),
{
    let all = lines_of(content);
    let n: usize = all.len();
    let asked: usize = match offset {
        Some(n) => n,
        None => 1,
    };
    let start: usize = asked.saturating_sub(1);
    if start >= n && n > 0 {
        let mut message = "offset ".to_string();
        message.append(decimal_text(asked as u64).as_str());
        message.append(" is beyond end of file (");
        message.append(decimal_text(n as u64).as_str());
        message.append(" lines total)");
        return Err(message);
    }
    if start >= n {
        return Ok(String::new());
    }
    let end: usize = match limit {
        Some(lim) => if lim < n - start {
            start + lim
        } else {
            n
        },
        None => n,
    };
    let mut slice: Vec<&str> = Vec::new();
    let ghost wanted = line_list(content@).subrange(start as int, end as int);
    let mut i: usize = start;
    while i < end
        invariant
            start <= i <= end <= n == all.len(),
            texts(all@) == line_list(content@),
            wanted == line_list(content@).subrange(start as int, end as int),
            str_texts(slice@) == wanted.take(i - start),
        decreases end - i,
    {
        let ghost before = str_texts(slice@);
        let line = all[i].as_str();
        slice.push(line);
        proof {
            assert(texts(all@)[i as int] == line@);
            assert(str_texts(slice@) == before.push(line@));
            assert(wanted.take(i + 1 - start) == wanted.take(i - start).push(line@));
        }
        i += 1;
    }
    proof {
        assert(wanted.take(wanted.len() as int) == wanted);
    }
    let (text, cut) = truncate_head(slice.as_slice(), MAX_READ_LINES, MAX_READ_BYTES);
    let seen = lines_of(text.as_str());
    let numbered_lines = number_lines(&seen, start as u128 + 1);
    let mut output = join(&numbered_lines, "\n");
    if cut {
        let shown_end: u128 = start as u128 + seen.len() as u128;
        output.append("\n\n[Showing lines ");
        push_decimal(&mut output, start as u128 + 1);
        output.append("-");
        push_decimal(&mut output, shown_end);
        output.append(" of ");
        output.append(decimal_text(n as u64).as_str());
        output.append(". Use offset=");
        push_decimal(&mut output, shown_end + 1);
        output.append(" to continue.]");
    }
    Ok(output)
}

/// The listing of a directory: its entries in order, one to a line.
pub fn list_directory(entries: Vec<String>) -> (r: String)
    ensures
        entries@.len() == 0 ==> r@ == "(empty directory)"@,
        entries@.len() > 0 ==> exists|ordered: Seq<Seq<char>>|
            in_order(ordered) && ordered.to_multiset() == texts(entries@).to_multiset() && r@
                == #[trigger] joined(ordered, "\n"@),
{
    if entries.is_empty() {
        return "(empty directory)".to_string();
    }
    let ordered = sorted_texts(entries);
    join(&ordered, "\n")
}

/// The error for a file that holds no text.
pub fn binary_file_error(path: &str) -> (r: String)
    ensures
        r@ == "cannot read binary file: "@ + path@ + ". Read supports text files only."@,
{
    let mut out = "cannot read binary file: ".to_string();
    out.append(path);
    out.append(". Read supports text files only.");
    out
}

proof fn lemma_whole_head(lines: Seq<Seq<char>>)
    requires
        fits(lines, 2000, 51200, lines.len() as int),
    ensures
        head(lines, 2000, 51200) == (joined(lines, "\n"@), false),
{
    head_keeps_to_limits(lines, 2000, 51200);
    let k = choose|k: int|
        {
            &&& 0 <= k <= lines.len()
            &&& fits(lines, 2000, 51200, k)
            &&& head(lines, 2000, 51200).0 == joined(#[trigger] lines.take(k), "\n"@)
            &&& head(lines, 2000, 51200).1 == (k < lines.len())
            &&& forall|j: int| k < j <= lines.len() ==> !#[trigger] fits(lines, 2000, 51200, j)
        };
    assert(k == lines.len());
    assert(lines.take(k) == lines);
}

/// Lines that were joined by line ends are read back one by one.
proof fn lemma_lines_read_back(lines: Seq<Seq<char>>)
    requires
        lines.len() > 0,
        lines.last().len() > 0,
        forall|i: int| 0 <= i < lines.len() ==> !(#[trigger] lines[i]).contains('\n'),
        forall|i: int|
            0 <= i < lines.len() && (#[trigger] lines[i]).len() > 0 ==> lines[i].last() != '\r',
    ensures
        line_list(joined(lines, "\n"@)) == lines,
{
    reveal_strlit("\n");
    assert("\n"@ == seq!['\n']);
    joined_parts_read_back(lines, '\n');
    assert(line_list(joined(lines, "\n"@)) == lines);
}

/// Where the file has the lines that are asked for and they can be shown as a whole,
/// exactly they are shown: from the line at the offset on, as many as the limit says or as
/// are left, each behind its number in the file. Lines that end in a lone carriage return,
/// and an empty line at the end, are told otherwise and left out here.
pub proof fn asked_lines_are_shown(content: Seq<char>, offset: usize, limit: usize, n: int)
    requires
        1 <= offset <= line_list(content).len(),
        limit >= 1,
        n == (if limit <= line_list(content).len() - (offset - 1) {
            limit as int
        } else {
            line_list(content).len() - (offset - 1)
        }),
        n <= 2000,
        byte_len(joined(line_list(content).subrange(offset - 1, offset - 1 + n), "\n"@)) <= 51200,
        line_list(content)[offset - 2 + n].len() > 0,
        forall|i: int|
            0 <= i < line_list(content).len() && (#[trigger] line_list(content)[i]).len() > 0
                ==> line_list(content)[i].last() != '\r',
    ensures
        shown(content, Some(offset), Some(limit)) == Ok::<Seq<char>, Seq<char>>(
            joined(
                Seq::new(
                    n as nat,
                    |i: int|
                        "L"@ + decimal((offset + i) as nat) + ":"@ + line_list(content)[offset - 1 + i],
                ),
                "\n"@,
            ),
        ),
{
    let all = line_list(content);
    let wanted = all.subrange(offset - 1, offset - 1 + n);
    assert(wanted.take(wanted.len() as int) == wanted);
    lemma_whole_head(wanted);
    lemma_lines_without_feed(content);
    assert forall|i: int| 0 <= i < wanted.len() implies !(#[trigger] wanted[i]).contains('\n') by {
        assert(wanted[i] == all[offset - 1 + i]);
    }
    assert forall|i: int| 0 <= i < wanted.len() && (#[trigger] wanted[i]).len() > 0 implies wanted[i].last()
        != '\r' by {
        assert(wanted[i] == all[offset - 1 + i]);
    }
    lemma_lines_read_back(wanted);
    let told = Seq::new(
        n as nat,
        |i: int| "L"@ + decimal((offset + i) as nat) + ":"@ + all[offset - 1 + i],
    );
    assert(numbered(wanted, offset as int) == told);
}

/// Without a limit everything from the offset on is asked for, and without an offset, or
/// with an offset of 0, reading starts at the first line.
pub proof fn reading_starts_at_the_first_line(content: Seq<char>, offset: Option<usize>, limit: usize)
    ensures
        shown(content, None, Some(limit)) == shown(content, Some(1), Some(limit)),
        shown(content, None, None) == shown(content, Some(1), None),
        line_list(content).len() > 0 ==> shown(content, Some(0), Some(limit)) == shown(
            content,
            Some(1),
            Some(limit),
        ),
        limit >= line_list(content).len() ==> shown(content, offset, Some(limit)) == shown(
            content,
            offset,
            None,
        ),
{
}

/// Reading fails exactly where the file has lines and the offset lies behind the last of
/// them. An empty file shows nothing, wherever reading starts.
pub proof fn only_offsets_behind_the_end_fail(
    content: Seq<char>,
    offset: usize,
    limit: Option<usize>,
)
    ensures
        shown(content, Some(offset), limit) is Err <==> 0 < line_list(content).len() < offset,
        shown(content, None, limit) is Ok,
        line_list(content).len() == 0 ==> shown(content, Some(offset), limit) == Ok::<
            Seq<char>,
            Seq<char>,
        >(Seq::empty()),
{
}

/// Where not all that was asked for fits, what is shown says so, and names the line behind
/// the last one that it counts as the one to go on with.
pub proof fn cut_output_says_how_to_go_on(content: Seq<char>, offset: usize)
    requires
        1 <= offset <= line_list(content).len(),
        !fits(
            line_list(content).skip(offset - 1),
            2000,
            51200,
            line_list(content).len() - (offset - 1),
        ),
    ensures
        ({
            let (text, cut) = head(line_list(content).skip(offset - 1), 2000, 51200);
            let next = offset + line_list(text).len();
            &&& cut
            &&& shown(content, Some(offset), None) matches Ok(told) && has_suffix(
                told,
                " of "@ + decimal(line_list(content).len()) + ". Use offset="@ + decimal(next as nat)
                    + " to continue.]"@,
            )
        }),
{
    let all = line_list(content);
    let lines = all.skip(offset - 1);
    assert(lines == all.subrange(offset - 1, all.len() as int));
    head_keeps_to_limits(lines, 2000, 51200);
    let (text, cut) = head(lines, 2000, 51200);
    assert(cut) by {
        let k = choose|k: int|
            {
                &&& 0 <= k <= lines.len()
                &&& fits(lines, 2000, 51200, k)
                &&& text == joined(#[trigger] lines.take(k), "\n"@)
                &&& cut == (k < lines.len())
                &&& forall|j: int| k < j <= lines.len() ==> !#[trigger] fits(lines, 2000, 51200, j)
            };
        assert(lines.take(lines.len() as int) == lines);
    }
    let told = shown(content, Some(offset), None)->Ok_0;
    let next = offset + line_list(text).len();
    let ending = " of "@ + decimal(all.len()) + ". Use offset="@ + decimal(next as nat)
        + " to continue.]"@;
    let beginning = joined(numbered(line_list(text), offset as int), "\n"@) + "\n\n[Showing lines "@
        + decimal(offset as nat) + "-"@ + decimal((next - 1) as nat);
    assert(told == beginning + ending);
    assert(told.subrange(told.len() - ending.len(), told.len() as int) == ending);
}

/// Reading a file shows exactly the lines that are asked for, each behind its number, where
/// they can be shown as a whole.
pub proof fn reading_gives_the_asked_lines(
    content: &str,
    offset: usize,
    limit: usize,
    n: int,
    r: Result<String, String>,
)
    requires
        call_ensures(format_file_content, (content, Some(offset), Some(limit)), r),
        1 <= offset <= line_list(content@).len(),
        limit >= 1,
        n == (if limit <= line_list(content@).len() - (offset - 1) {
            limit as int
        } else {
            line_list(content@).len() - (offset - 1)
        }),
        n <= 2000,
        byte_len(joined(line_list(content@).subrange(offset - 1, offset - 1 + n), "\n"@)) <= 51200,
        line_list(content@)[offset - 2 + n].len() > 0,
        forall|i: int|
            0 <= i < line_list(content@).len() && (#[trigger] line_list(content@)[i]).len() > 0
                ==> line_list(content@)[i].last() != '\r',
    ensures
        r matches Ok(text) && text@ == joined(
            Seq::new(
                n as nat,
                |i: int|
                    "L"@ + decimal((offset + i) as nat) + ":"@ + line_list(content@)[offset - 1 + i],
            ),
            "\n"@,
        ),
{
    asked_lines_are_shown(content@, offset, limit, n);
}

/// The tool shows its parameters: the path, which must be given, an offset and a limit.
pub proof fn read_parameters_are_shown(tool: &ReadTool, r: ToolDefinition, name: &str)
    requires
        call_ensures(ReadTool::definition, (tool,), r),
        call_ensures(ReadTool::name, (tool,), name),
    ensures
        name@ == "Read"@ && r.name@ == "Read"@,
        ({
            let all = r.parameters@->Object_0;
            let shown = all[1].1->Object_0;
            &&& r.parameters@ is Object && all.len() == 3
            &&& all[0] == ("type"@, JsonValue::Str("object"@))
            &&& all[1].0 == "properties"@
            &&& all[2] == ("required"@, JsonValue::Array(seq![JsonValue::Str("path"@)]))
            &&& shown.len() == 3
            &&& shown[0] == (
                "path"@,
                property_schema("string"@, "Relative or absolute file or directory path"@),
            )
            &&& shown[1] == ("offset"@, property_schema("integer"@, "1-based start line"@))
            &&& shown[2] == (
                "limit"@,
                property_schema("integer"@, "Maximum number of lines to read"@),
            )
        }),
{
}

/// A file that holds no text is refused by its path, and an empty directory says so.
pub proof fn unreadable_files_are_named(path: &str, r: String)
    requires
        call_ensures(binary_file_error, (path,), r),
    ensures
        r@ == "cannot read binary file: "@ + path@ + ". Read supports text files only."@,
{
}

/// What is shown of some lines is a beginning of them: never more lines than allowed nor more
/// bytes, and as many as both limits let through. It is told whether lines were left out.
pub proof fn as_much_is_shown_as_fits(lines: Seq<Seq<char>>, max_lines: int, max_bytes: int) -> (k: int)
    requires
        0 <= max_lines,
        0 <= max_bytes,
    ensures
        0 <= k <= lines.len(),
        k <= max_lines,
        head(lines, max_lines, max_bytes).0 == joined(lines.take(k), "\n"@),
        byte_len(joined(lines.take(k), "\n"@)) <= max_bytes,
        head(lines, max_lines, max_bytes).1 <==> k < lines.len(),
        k < lines.len() ==> k == max_lines || byte_len(joined(lines.take(k + 1), "\n"@))
            > max_bytes,
{
    head_keeps_to_limits(lines, max_lines, max_bytes);
    let k = choose|k: int|
        {
            &&& 0 <= k <= lines.len()
            &&& fits(lines, max_lines, max_bytes, k)
            &&& head(lines, max_lines, max_bytes).0 == joined(#[trigger] lines.take(k), "\n"@)
            &&& head(lines, max_lines, max_bytes).1 == (k < lines.len())
            &&& forall|j: int|
                k < j <= lines.len() ==> !#[trigger] fits(lines, max_lines, max_bytes, j)
        };
    if k < lines.len() {
        assert(!fits(lines, max_lines, max_bytes, k + 1));
    }
    k
}

/// A directory is listed with all of its entries, each on its own line, in order.
pub proof fn directories_are_listed_in_order(entries: Vec<String>, r: String)
    requires
        call_ensures(list_directory, (entries,), r),
    ensures
        entries@.len() == 0 ==> r@ == "(empty directory)"@,
        entries@.len() > 0 ==> exists|ordered: Seq<Seq<char>>|
            in_order(ordered) && ordered.to_multiset() == texts(entries@).to_multiset() && r@
                == #[trigger] joined(ordered, "\n"@),
{
}

} // verus!
