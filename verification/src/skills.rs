//! Skills: the metadata in the frontmatter of a `SKILL.md`, and their listing.
use vstd::prelude::*;

use crate::text::{
    chars_of, find_chars, find_from, has_part, has_prefix, join, joined, joined_parts_read_back,
    lemma_find_from, lemma_pieces_nonempty, lemma_pieces_without, lemma_position_first, line_list, lines_of, occurs_at, opt_text, pieces,
    position_from, same_text, starts_with, text_between, texts, to_lowercase, trim, trimmed,
    unicode_lowercase,
};

verus! {

/// Metadata for a discovered skill (`SKILL.md`).
#[derive(Debug, Clone)]
pub struct SkillMeta {
    pub name: String,
    pub description: String,
    pub path: String,
}

/// The frontmatter of a text and the body behind it: what stands between a leading
/// `---` and the next line that begins with `---`.
pub open spec fn frontmatter(content: Seq<char>) -> Option<(Seq<char>, Seq<char>)> {
    if !has_prefix(content, "---"@) {
        None
    } else {
        let after = content.skip(3);
        let rest = if after.len() > 0 && after[0] == '\n' {
            after.skip(1)
        } else {
            after
        };
        match find_from(rest, "\n---"@, 0) {
            None => None,
            Some(end) => {
                let tail = rest.skip(end + 4);
                Some(
                    (
                        rest.take(end),
                        if tail.len() > 0 && tail[0] == '\n' {
                            tail.skip(1)
                        } else {
                            tail
                        },
                    ),
                )
            },
        }
    }
}

/// The frontmatter of a text, or nothing.
pub open spec fn front_of(content: Seq<char>) -> Seq<char> {
    match frontmatter(content) {
        Some((front, _)) => front,
        None => Seq::empty(),
    }
}

/// The frontmatter of a text and the body behind it.
pub fn split_frontmatter(content: &str) -> (r: Option<(String, String)>)
    ensures
        match r {
            Some((front, body)) => frontmatter(content@) == Some((front@, body@)),
            None => frontmatter(content@) is None,
        },
{
    if !starts_with(content, "---") {
        return None;
    }
    let chars = chars_of(content);
    let n: usize = chars.len();
    proof {
        reveal_strlit("---");
        reveal_strlit("\n---");
    }
    let from: usize = if n > 3 && chars[3] == '\n' {
        4
    } else {
        3
    };
    let rest_text = text_between(&chars, from, n);
    let rest = chars_of(rest_text.as_str());
    proof {
        let after = content@.skip(3);
        assert(rest@ == (if after.len() > 0 && after[0] == '\n' {
            after.skip(1)
        } else {
            after
        }));
    }
    let marker = chars_of("\n---");
    match find_chars(&rest, &marker, 0) {
        None => None,
        Some(end) => {
            let front = text_between(&rest, 0, end);
            let tail: usize = end + 4;
            let body_from: usize = if tail < rest.len() && rest[tail] == '\n' {
                tail + 1
            } else {
                tail
            };
            let body = text_between(&rest, body_from, rest.len());
            proof {
                assert(front@ == rest@.take(end as int));
                let t = rest@.skip(end + 4);
                assert(body@ == (if t.len() > 0 && t[0] == '\n' {
                    t.skip(1)
                } else {
                    t
                }));
            }
            Some((front, body))
        },
    }
}

/// A line of frontmatter as it was written: the trimmed texts before and behind its
/// first colon. Blank lines, comments and lines without a colon give nothing.
pub open spec fn written_entry(line: Seq<char>) -> Option<(Seq<char>, Seq<char>)> {
    let text = trimmed(line);
    let colon = position_from(text, 0, ':');
    if text.len() == 0 || text[0] == '#' || colon >= text.len() {
        None
    } else {
        Some((trimmed(text.take(colon)), trimmed(text.skip(colon + 1))))
    }
}

/// The entries of frontmatter as they were written, in order.
pub open spec fn written_entries(lines: Seq<Seq<char>>) -> Seq<(Seq<char>, Seq<char>)>
    decreases lines.len(),
{
    if lines.len() == 0 {
        Seq::empty()
    } else {
        let before = written_entries(lines.drop_last());
        match written_entry(lines.last()) {
            Some(entry) => before.push(entry),
            None => before,
        }
    }
}

/// The texts of a list of entries.
pub open spec fn entry_list(entries: Seq<(String, String)>) -> Seq<(Seq<char>, Seq<char>)> {
    Seq::new(entries.len(), |i: int| (entries[i].0@, entries[i].1@))
}

/// The entries with their keys in lower case.
pub open spec fn lowered(entries: Seq<(Seq<char>, Seq<char>)>) -> Seq<(Seq<char>, Seq<char>)> {
    Seq::new(entries.len(), |i: int| (unicode_lowercase(entries[i].0), entries[i].1))
}

/// The value of the last entry with a key.
pub open spec fn last_value(entries: Seq<(Seq<char>, Seq<char>)>, key: Seq<char>) -> Option<Seq<char>>
    decreases entries.len(),
{
    if entries.len() == 0 {
        None
    } else if entries.last().0 == key {
        Some(entries.last().1)
    } else {
        last_value(entries.drop_last(), key)
    }
}

fn read_entry(line: &str) -> (r: Option<(String, String)>)
    ensures
        match r {
            Some((key, value)) => written_entry(line@) == Some((key@, value@)),
            None => written_entry(line@) is None,
        },
{
    let text = trim(line);
    let chars = chars_of(text.as_str());
    let n: usize = chars.len();
    if n == 0 || chars[0] == '#' {
        return None;
    }
    let mut colon: usize = 0;
    while colon < n && chars[colon] != ':'
        invariant
            colon <= n == chars.len(),
            chars@ == text@,
            position_from(text@, 0, ':') == position_from(text@, colon as int, ':'),
        decreases n - colon,
    {
        colon += 1;
    }
    if colon >= n {
        return None;
    }
    let key = text_between(&chars, 0, colon);
    let value = text_between(&chars, colon + 1, n);
    proof {
        assert(key@ == text@.take(colon as int));
        assert(value@ == text@.skip(colon + 1));
    }
    Some((trim(key.as_str()), trim(value.as_str())))
}

/// The entries of the frontmatter of a text, with their keys in lower case.
pub fn parse_frontmatter(content: &str) -> (r: Option<Vec<(String, String)>>)
    ensures
        match r {
            Some(entries) => frontmatter(content@) is Some && entry_list(entries@) == lowered(
                written_entries(line_list(front_of(content@))),
            ),
            None => frontmatter(content@) is None,
        },
{
    let (front, _) = split_frontmatter(content)?;
    let lines = lines_of(front.as_str());
    let ghost all = line_list(front@);
    let mut out: Vec<(String, String)> = Vec::new();
    let mut i: usize = 0;
    proof {
        assert(all.take(0) == Seq::<Seq<char>>::empty());
        assert(entry_list(out@) == lowered(written_entries(all.take(0))));
    }
    while i < lines.len()
        invariant
            i <= lines.len(),
            texts(lines@) == all,
            entry_list(out@) == lowered(written_entries(all.take(i as int))),
        decreases lines.len() - i,
    {
        let ghost before = entry_list(out@);
        proof {
            assert(all.take(i + 1).drop_last() == all.take(i as int));
            assert(all.take(i + 1).last() == lines@[i as int]@);
        }
        if let Some((key, value)) = read_entry(lines[i].as_str()) {
            let lower = to_lowercase(key.as_str());
            let ghost added = (lower@, value@);
            out.push((lower, value));
            proof {
                assert(entry_list(out@) == before.push(added));
                assert(lowered(written_entries(all.take(i + 1))) == before.push(added));
            }
        }
        i += 1;
    }
    proof {
        assert(all.take(all.len() as int) == all);
    }
    Some(out)
}

fn find_value(entries: &Vec<(String, String)>, key: &str) -> (r: Option<String>)
    ensures
        opt_text(r) == last_value(entry_list(entries@), key@),
{
    let ghost all = entry_list(entries@);
    let mut i: usize = entries.len();
    proof {
        assert(all.take(all.len() as int) == all);
    }
    while i > 0
        invariant
            i <= entries.len(),
            all == entry_list(entries@),
            last_value(all, key@) == last_value(all.take(i as int), key@),
        decreases i,
    {
        let entry = &entries[i - 1];
        proof {
            assert(all.take(i as int).last() == (entry.0@, entry.1@));
            assert(all.take(i as int).drop_last() == all.take(i - 1));
        }
        if same_text(entry.0.as_str(), key) {
            return Some(entry.1.clone());
        }
        i -= 1;
    }
    None
}

/// The name of a skill: the one in its entries unless that is blank, else the name
/// of its directory, else `unknown`.
pub open spec fn skill_name(
    entries: Seq<(Seq<char>, Seq<char>)>,
    directory: Option<Seq<char>>,
) -> Seq<char> {
    let fallback = match directory {
        Some(name) => name,
        None => "unknown"@,
    };
    match last_value(entries, "name"@) {
        Some(name) => if trimmed(name).len() > 0 {
            name
        } else {
            fallback
        },
        None => fallback,
    }
}

/// The description of a skill, or nothing.
pub open spec fn skill_description(entries: Seq<(Seq<char>, Seq<char>)>) -> Seq<char> {
    match last_value(entries, "description"@) {
        Some(text) => text,
        None => Seq::empty(),
    }
}

/// The metadata that frontmatter entries give. `directory` is the name of the
/// directory that holds the file.
pub fn skill_meta_from_entries(
    path: &str,
    directory: Option<String>,
    entries: &Vec<(String, String)>,
) -> (r: SkillMeta)
    ensures
        r.name@ == skill_name(entry_list(entries@), opt_text(directory)),
        r.description@ == skill_description(entry_list(entries@)),
        r.path@ == path@,
{
    let fallback = match directory {
        Some(name) => name,
        None => "unknown".to_string(),
    };
    let name = match find_value(entries, "name") {
        Some(name) => if trim(name.as_str()).as_str().is_empty() {
            fallback
        } else {
            name
        },
        None => fallback,
    };
    let description = match find_value(entries, "description") {
        Some(text) => text,
        None => String::new(),
    };
    SkillMeta { name, description, path: path.to_string() }
}

/// Whether a text can be the name of a file on every platform, as far as the reading of
/// paths goes.
pub open spec fn ordinary_name(name: Seq<char>) -> bool {
    &&& name.len() > 0
    &&& name != "."@
    &&& name != ".."@
    &&& !name.contains('\\')
    &&& !name.contains(':')
}

/// Whether a path is made of ordinary names with single `/` between them, with or
/// without a `/` in front. Such a path has the same components on every platform.
pub open spec fn ordinary_path(path: Seq<char>) -> bool {
    let names = pieces(path, '/');
    &&& forall|i: int| 0 < i < names.len() ==> ordinary_name(#[trigger] names[i])
    &&& ordinary_name(names[0]) || (names[0].len() == 0 && names.len() > 1)
}

/// An ordinary path without its final component.
pub open spec fn enclosing(path: Seq<char>) -> Seq<char> {
    let names = pieces(path, '/');
    if names.len() == 2 && names[0].len() == 0 {
        "/"@
    } else {
        joined(names.drop_last(), "/"@)
    }
}

/// The name of the directory in which an ordinary path lies, if the path gives it.
pub open spec fn directory_name(path: Seq<char>) -> Option<Seq<char>> {
    let names = pieces(path, '/');
    if names.len() >= 2 && names[names.len() - 2].len() > 0 {
        Some(names[names.len() - 2])
    } else {
        None
    }
}

/// `std::path::Path::parent`, as text: the path without its final component, so that
/// the path begins with it. On a path of ordinary names it is what stands before the
/// last `/`, the root where nothing but that `/` does, and empty for a single name.
/// Which components other paths have depends on the platform, and nothing more is
/// claimed of them.
#[verifier::external_body]
fn parent_path(path: &str) -> (r: Option<String>)
    ensures
        r matches Some(dir) ==> has_prefix(path@, dir@),
        ordinary_path(path@) ==> opt_text(r) == Some(enclosing(path@)),
{
    std::path::Path::new(path).parent().map(|dir| dir.to_string_lossy().into_owned())
}

/// `std::path::Path::file_name`, as text: the final component, which stands in the
/// path. On a path of ordinary names it is the last of them; the root and the empty
/// path have none. Which components other paths have depends on the platform, and
/// nothing more is claimed of them.
#[verifier::external_body]
fn last_component(path: &str) -> (r: Option<String>)
    ensures
        r matches Some(name) ==> has_part(path@, name@),
        ordinary_path(path@) ==> opt_text(r) == Some(pieces(path@, '/').last()),
        path@ == "/"@ || path@.len() == 0 ==> r is None,
{
    std::path::Path::new(path).file_name().map(|name| name.to_string_lossy().into_owned())
}

proof fn lemma_enclosing(path: Seq<char>)
    requires
        ordinary_path(path),
    ensures
        match directory_name(path) {
            Some(name) => ordinary_path(enclosing(path)) && pieces(enclosing(path), '/').last()
                == name,
            None => enclosing(path) == "/"@ || enclosing(path).len() == 0,
        },
{
    let names = pieces(path, '/');
    let before = names.drop_last();
    reveal_strlit("/");
    assert("/"@ == seq!['/']);
    lemma_pieces_nonempty(path, '/', 0);
    lemma_pieces_without(path, '/', 0);
    if directory_name(path) is Some {
        assert forall|k: int| 0 <= k < before.len() implies !(#[trigger] before[k]).contains('/') by {
            assert(before[k] == names[k]);
        }
        joined_parts_read_back(before, '/');
        assert forall|i: int| 0 < i < before.len() implies ordinary_name(#[trigger] before[i]) by {
            assert(before[i] == names[i]);
        }
        assert(before[0] == names[0]);
        assert(before.last() == names[names.len() - 2]);
    } else if names.len() > 2 {
        assert(ordinary_name(names[names.len() - 2]));
    }
}

proof fn lemma_part_of_prefix(path: Seq<char>, dir: Seq<char>, name: Seq<char>)
    requires
        has_prefix(path, dir),
        has_part(dir, name),
    ensures
        has_part(path, name),
{
    let at = choose|at: int| occurs_at(dir, name, at);
    assert(path.subrange(at, at + name.len()) == dir.subrange(at, at + name.len()));
    assert(occurs_at(path, name, at));
}

/// Parses the frontmatter of a skill file for its name and description. Without
/// frontmatter there is no skill. Which directory a path of other than ordinary names
/// lies in depends on the platform; its name is then some part of the path.
pub fn skill_meta_from_file(path: &str, content: &str) -> (r: Option<SkillMeta>)
    ensures
        match r {
            Some(meta) => {
                let entries = lowered(written_entries(line_list(front_of(content@))));
                &&& frontmatter(content@) is Some
                &&& exists|directory: Option<Seq<char>>|
                    {
                        &&& directory matches Some(name) ==> has_part(path@, name)
                        &&& ordinary_path(path@) ==> directory == directory_name(path@)
                        &&& meta.name@ == #[trigger] skill_name(entries, directory)
                    }
                &&& meta.description@ == skill_description(entries)
                &&& meta.path@ == path@
            },
            None => frontmatter(content@) is None,
        },
{
    let entries = parse_frontmatter(content)?;
    let directory = match parent_path(path) {
        Some(dir) => {
            let name = last_component(dir.as_str());
            proof {
                if ordinary_path(path@) {
                    lemma_enclosing(path@);
                }
                if name is Some {
                    lemma_part_of_prefix(path@, dir@, name->0@);
                }
            }
            name
        },
        None => None,
    };
    let ghost found = opt_text(directory);
    let meta = skill_meta_from_entries(path, directory, &entries);
    proof {
        let read = lowered(written_entries(line_list(front_of(content@))));
        assert(meta.name@ == skill_name(read, found));
    }
    Some(meta)
}

/// The line that lists a skill.
pub open spec fn skill_line(skill: SkillMeta) -> Seq<char> {
    "- "@ + skill.name@ + ": "@ + skill.description@
}

/// The listing of the available skills, if there are any.
pub fn format_available_skills(skills: &Vec<SkillMeta>) -> (r: Option<String>)
    ensures
        r is Some <==> skills@.len() > 0,
        r matches Some(text) ==> text@ == "Available skills:\n"@ + joined(
            Seq::new(skills@.len(), |i: int| skill_line(skills@[i])),
            "\n"@,
        ),
{
    if skills.is_empty() {
        return None;
    }
    let mut lines: Vec<String> = Vec::new();
    let ghost all = Seq::new(skills@.len(), |i: int| skill_line(skills@[i]));
    let mut i: usize = 0;
    while i < skills.len()
        invariant
            i <= skills.len(),
            all == Seq::new(skills@.len(), |i: int| skill_line(skills@[i])),
            texts(lines@) == all.take(i as int),
        decreases skills.len() - i,
    {
        let ghost before = texts(lines@);
        let mut line = "- ".to_string();
        line.append(skills[i].name.as_str());
        line.append(": ");
        line.append(skills[i].description.as_str());
        let ghost added = line@;
        lines.push(line);
        proof {
            assert(added == all[i as int]);
            assert(texts(lines@) == before.push(added));
            assert(all.take(i + 1) == all.take(i as int).push(added));
        }
        i += 1;
    }
    proof {
        assert(all.take(all.len() as int) == all);
    }
    let mut out = "Available skills:\n".to_string();
    out.append(join(&lines, "\n").as_str());
    Some(out)
}

/// An entry of frontmatter is what stands before and behind its first colon, without the space
/// around either; blank lines, comments and lines without a colon are none.
pub proof fn entries_are_parted_at_the_first_colon(line: Seq<char>, key: Seq<char>, value: Seq<char>)
    ensures
        trimmed(line).len() == 0 ==> written_entry(line) is None,
        trimmed(line).len() > 0 && trimmed(line)[0] == '#' ==> written_entry(line) is None,
        !trimmed(line).contains(':') ==> written_entry(line) is None,
        trimmed(line) == key.push(':') + value && !key.contains(':') && (key.len() == 0 || key[0]
            != '#') ==> written_entry(line) == Some((trimmed(key), trimmed(value))),
{
    let text = trimmed(line);
    lemma_position_first(text, 0, ':');
    let colon = position_from(text, 0, ':');
    if !text.contains(':') && colon < text.len() {
        assert(text[colon] == ':');
    }
    if text == key.push(':') + value && !key.contains(':') {
        let n = key.len() as int;
        assert(text[n] == ':');
        assert forall|j: int| 0 <= j < n implies text[j] != ':' by {
            assert(text[j] == key[j]);
            assert(key.contains(key[j]));
        }
        assert(colon == n) by {
            if colon < n {
                assert(text[colon] == ':');
            }
        }
        assert(text.take(n) == key);
        assert(text.skip(n + 1) == value);
    }
}

/// The entries stand in the order of their lines, and lines that are no entries leave none.
pub proof fn entries_keep_their_order(lines: Seq<Seq<char>>, line: Seq<char>)
    ensures
        written_entries(Seq::empty()) == Seq::<(Seq<char>, Seq<char>)>::empty(),
        written_entry(line) is None ==> written_entries(lines.push(line)) == written_entries(lines),
        written_entry(line) matches Some(entry) ==> written_entries(lines.push(line))
            == written_entries(lines).push(entry),
{
    assert(lines.push(line).drop_last() == lines);
}

/// Of several entries with a key the last one counts, and entries with other keys do not.
pub proof fn the_last_entry_counts(
    entries: Seq<(Seq<char>, Seq<char>)>,
    key: Seq<char>,
    other: Seq<char>,
    value: Seq<char>,
)
    ensures
        last_value(entries.push((key, value)), key) == Some(value),
        other != key ==> last_value(entries.push((other, value)), key) == last_value(entries, key),
        last_value(Seq::empty(), key) is None,
{
    assert(entries.push((key, value)).drop_last() == entries);
    assert(entries.push((other, value)).drop_last() == entries);
}

/// A skill goes by the name in its frontmatter unless that is blank, then by the name of its
/// directory, and without one as `unknown`; its description is the one it gives, or empty.
pub proof fn skills_go_by_their_own_name(
    path: &str,
    directory: Option<String>,
    entries: &Vec<(String, String)>,
    r: SkillMeta,
)
    requires
        call_ensures(skill_meta_from_entries, (path, directory, entries), r),
    ensures
        r.path@ == path@,
        last_value(entry_list(entries@), "name"@) matches Some(name) ==> (trimmed(name).len() > 0
            ==> r.name@ == name),
        (last_value(entry_list(entries@), "name"@) is None || trimmed(
            last_value(entry_list(entries@), "name"@)->0,
        ).len() == 0) ==> (directory matches Some(name) ==> r.name@ == name@) && (directory is None
            ==> r.name@ == "unknown"@),
        last_value(entry_list(entries@), "description"@) matches Some(text) ==> r.description@ == text,
        last_value(entry_list(entries@), "description"@) is None ==> r.description@.len() == 0,
{
}

/// Frontmatter stands between a leading `---` and the next line that begins with `---`; a text
/// that does not begin with it, or in which it does not end, has none.
pub proof fn frontmatter_stands_between_its_marks(front: Seq<char>, body: Seq<char>, content: Seq<char>)
    ensures
        !has_prefix(content, "---"@) ==> frontmatter(content) is None,
        content == "---\n"@ + front + "\n---\n"@ + body && find_from(
            front + "\n---\n"@ + body,
            "\n---"@,
            0,
        ) == Some(front.len() as int) ==> frontmatter(content) == Some((front, body)),
        frontmatter(content) matches Some((f, b)) ==> has_prefix(content, "---"@) && has_part(
            content,
            f,
        ),
{
    reveal_strlit("---");
    reveal_strlit("---\n");
    reveal_strlit("\n---");
    reveal_strlit("\n---\n");
    if content == "---\n"@ + front + "\n---\n"@ + body {
        let rest = front + "\n---\n"@ + body;
        assert(content.subrange(0, 3) == "---"@);
        assert(content.skip(3)[0] == '\n');
        assert(content.skip(3).skip(1) == rest);
        let n = front.len() as int;
        assert(rest.take(n) == front);
        let tail = rest.skip(n + 4);
        assert(tail[0] == '\n');
        assert(tail.skip(1) == body);
    }
    if let Some((f, b)) = frontmatter(content) {
        let after = content.skip(3);
        let from: int = if after.len() > 0 && after[0] == '\n' {
            4
        } else {
            3
        };
        let rest = if after.len() > 0 && after[0] == '\n' {
            after.skip(1)
        } else {
            after
        };
        assert(rest == content.skip(from));
        lemma_find_from(rest, "\n---"@, 0);
        assert(content.subrange(from, from + f.len()) == f);
        assert(occurs_at(content, f, from));
    }
}

/// Listed skills stand in order, each with its name and description, and where there are none
/// nothing is listed.
pub proof fn skills_are_listed_in_order(skills: &Vec<SkillMeta>, r: Option<String>)
    requires
        call_ensures(format_available_skills, (skills,), r),
    ensures
        r is None <==> skills@.len() == 0,
        skills@.len() == 1 ==> (r matches Some(text) && text@ == "Available skills:\n"@ + ("- "@
            + skills@[0].name@ + ": "@ + skills@[0].description@)),
        skills@.len() == 2 ==> (r matches Some(text) && text@ == "Available skills:\n"@ + ("- "@
            + skills@[0].name@ + ": "@ + skills@[0].description@ + "\n"@ + ("- "@ + skills@[1].name@
            + ": "@ + skills@[1].description@))),
{
    let lines = Seq::new(skills@.len(), |i: int| skill_line(skills@[i]));
    if skills@.len() == 1 {
        assert(joined(lines, "\n"@) == lines[0]);
    }
    if skills@.len() == 2 {
        assert(lines.drop_last() == seq![lines[0]]);
        assert(joined(seq![lines[0]], "\n"@) == lines[0]);
        assert(joined(lines, "\n"@) == lines[0] + "\n"@ + lines[1]);
    }
}

} // verus!
