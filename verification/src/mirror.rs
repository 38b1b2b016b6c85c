//! The markdown mirror of a store record: the deterministic file name
//! derived from the creation date and the sanitized entry name, the fixed
//! front-matter templates for the two entry kinds, and the rule for
//! re-discovering a mirror file whose expected name has gone stale.  The
//! surrounding application does the actual directory listing and file write;
//! every decision about names and bytes is made here.

use vstd::prelude::*;
use vstd::string::*;

use crate::domain::{quadrant_str, ring_str, Quadrant, Ring};
use crate::models::BlipRecord;
use crate::strutil::{
    bool_str, bool_string, date_prefix, date_prefix_of, dec_of, i32_string, is_suffix_of,
    ends_with_str, sanitize_name, sanitized_of,
};

verus! {

/// The bare mirror file name (no extension): the date part of the creation
/// timestamp, a hyphen, and the sanitized entry name.
pub open spec fn mirror_name_of(created: Seq<char>, name: Seq<char>) -> Seq<char> {
    date_prefix_of(created) + "-"@ + sanitized_of(name)
}

/// Derives the bare mirror file name for an entry.
pub fn mirror_file_name(created: &str, name: &str) -> (r: String)
    ensures
        r@ == mirror_name_of(created@, name@),
{
    let mut s = date_prefix(created);
    s.append("-");
    let sanitized = sanitize_name(name);
    s.append(sanitized.as_str());
    s
}

/// The full path of a mirror file: directory, separator, name, extension.
pub open spec fn file_path_of(dir: Seq<char>, file_name: Seq<char>) -> Seq<char> {
    dir + "/"@ + file_name + ".mdx"@
}

/// Joins a directory and a bare file name into the mirror file path.
pub fn get_file_path(dir: &str, file_name: &str) -> (r: String)
    ensures
        r@ == file_path_of(dir@, file_name@),
{
    let mut s = String::from_str(dir);
    s.append("/");
    s.append(file_name);
    s.append(".mdx");
    s
}

/// The suffix a stale mirror file is recognised by: a hyphen, the sanitized
/// entry name, and the extension.
pub open spec fn rediscover_suffix_of(name: Seq<char>) -> Seq<char> {
    "-"@ + sanitized_of(name) + ".mdx"@
}

/// Builds the rediscovery suffix for an entry name.
pub fn rediscover_suffix(name: &str) -> (r: String)
    ensures
        r@ == rediscover_suffix_of(name@),
{
    let mut s = String::from_str("-");
    let sanitized = sanitize_name(name);
    s.append(sanitized.as_str());
    s.append(".mdx");
    s
}

/// Where a mirror write must go: if the expected file exists, there; else
/// the first directory entry ending in the rediscovery suffix; else the
/// expected file again, after creating the directory.  The second result is
/// whether the directory must be created first.
#[verifier::loop_isolation(false)]
pub fn choose_mirror_file(
    expected: &str,
    expected_exists: bool,
    entries: &Vec<String>,
    suffix: &str,
) -> (r: (String, bool))
    ensures
        expected_exists ==> r.0@ == expected@ && r.1 == false,
        !expected_exists && (exists|i: int|
            0 <= i < entries@.len() && is_suffix_of(suffix@, #[trigger] entries@[i]@)) ==> {
            let i = choose|i: int|
                0 <= i < entries@.len() && is_suffix_of(suffix@, #[trigger] entries@[i]@);
            &&& r.1 == false
            &&& exists|j: int|
                0 <= j < entries@.len() && is_suffix_of(suffix@, #[trigger] entries@[j]@)
                    && r.0@ == entries@[j]@ && forall|k: int|
                    0 <= k < j ==> !is_suffix_of(suffix@, #[trigger] entries@[k]@)
        },
        !expected_exists && (forall|i: int|
            0 <= i < entries@.len() ==> !is_suffix_of(suffix@, #[trigger] entries@[i]@)) ==> r.0@
            == expected@ && r.1 == true,
{
    if expected_exists {
        return (String::from_str(expected), false);
    }
    let mut i: usize = 0;
    while i < entries.len()
        invariant
            i <= entries@.len(),
            forall|k: int| 0 <= k < i ==> !is_suffix_of(suffix@, #[trigger] entries@[k]@),
        decreases entries@.len() - i,
    {
        if ends_with_str(entries[i].as_str(), suffix) {
            let found = entries[i].clone();
            proof {
                assert(is_suffix_of(suffix@, entries@[i as int]@));
            }
            return (found, false);
        }
        i += 1;
    }
    (String::from_str(expected), true)
}

/// A pending mirror write, to be carried out by the surrounding
/// application: list the directory, pick the target with
/// `choose_mirror_file`, create the directory if asked, and write the
/// content.
pub struct MirrorJob {
    /// The directory the mirror lives in.
    pub dir: String,
    /// The expected full file path inside that directory.
    pub expected_path: String,
    /// The suffix a stale mirror file of this entry ends in.
    pub suffix: String,
    /// The bytes the mirror file must hold afterwards.
    pub content: String,
}

/// The front matter value referring to the linked blip: the name, or
/// `null` when the ADR is unlinked.
pub open spec fn blip_ref_of(name: Seq<char>) -> Seq<char> {
    if name.len() == 0 {
        "null"@
    } else {
        name
    }
}

/// The front matter value for an optional linked ADR id.
pub open spec fn adr_id_ref_of(adr_id: Option<i32>) -> Seq<char> {
    match adr_id {
        Some(id) => dec_of(id as int),
        None => "null"@,
    }
}

/// The stored form of an optional ring, or the empty string.
pub open spec fn opt_ring_str(r: Option<Ring>) -> Seq<char> {
    match r {
        Some(ring) => ring_str(ring),
        None => ""@,
    }
}

/// The stored form of an optional quadrant, or the empty string.
pub open spec fn opt_quadrant_str(q: Option<Quadrant>) -> Seq<char> {
    match q {
        Some(quadrant) => quadrant_str(quadrant),
        None => ""@,
    }
}

/// The markdown a freshly created blip is mirrored as.
pub open spec fn blip_create_markdown(
    id: Seq<char>,
    name: Seq<char>,
    ring: Seq<char>,
    quadrant: Seq<char>,
    author: Seq<char>,
    created: Seq<char>,
) -> Seq<char> {
    "---\n id: \""@ + id + "\"\n name: \""@ + name + "\"\n ring: \""@ + ring
        + "\"\n quadrant: \""@ + quadrant + "\"\n tags: [\"\"]\n authors: [\""@ + author
        + "\"]\n hasAdr: false\n adrId: null\n description: {{description}}\n created: \""@
        + created + "\"\n ---\n \n # \""@ + name + "\"\n **Ring**: \""@ + ring
        + "\"\n **Quadrant**: \""@ + quadrant
        + "\"\n **New**: false\n **Description**: {{description}}\n **has ADR**: false\n "@
}

/// Renders the mirror content of a freshly created blip.
pub fn render_blip_create(
    id: &str,
    name: &str,
    ring: &str,
    quadrant: &str,
    author: &str,
    created: &str,
) -> (r: String)
    ensures
        r@ == blip_create_markdown(id@, name@, ring@, quadrant@, author@, created@),
{
    let mut s = String::from_str("---\n id: \"");
    s.append(id);
    s.append("\"\n name: \"");
    s.append(name);
    s.append("\"\n ring: \"");
    s.append(ring);
    s.append("\"\n quadrant: \"");
    s.append(quadrant);
    s.append("\"\n tags: [\"\"]\n authors: [\"");
    s.append(author);
    s.append("\"]\n hasAdr: false\n adrId: null\n description: {{description}}\n created: \"");
    s.append(created);
    s.append("\"\n ---\n \n # \"");
    s.append(name);
    s.append("\"\n **Ring**: \"");
    s.append(ring);
    s.append("\"\n **Quadrant**: \"");
    s.append(quadrant);
    s.append("\"\n **New**: false\n **Description**: {{description}}\n **has ADR**: false\n ");
    s
}

/// The markdown an existing blip row is mirrored as on re-sync.
pub open spec fn blip_sync_markdown(b: BlipRecord, author: Seq<char>) -> Seq<char> {
    "---\n id: \""@ + dec_of(b.id as int) + "\"\n name: \""@ + b.name@ + "\"\n ring: \""@
        + opt_ring_str(b.ring) + "\"\n quadrant: \""@ + opt_quadrant_str(b.quadrant)
        + "\"\n tags: [\""@ + (match b.tag {
        Some(t) => t@,
        None => ""@,
    }) + "\"]\n authors: [\""@ + author + "\"]\n hasAdr: "@ + bool_str(b.has_adr)
        + "\n adrId: "@ + adr_id_ref_of(b.adr_id)
        + "\n description: {{description}}\n created: \""@ + b.created@ + "\"\n ---\n \n # \""@
        + b.name@ + "\"\n **Ring**: \""@ + opt_ring_str(b.ring) + "\"\n **Quadrant**: \""@
        + opt_quadrant_str(b.quadrant)
        + "\"\n **New**: false\n **Description**: {{description}}\n **has ADR**: "@ + bool_str(
        b.has_adr,
    ) + "\n "@
}

/// Renders the mirror content of an existing blip row.
pub fn render_blip_sync(b: &BlipRecord, author: &str) -> (r: String)
    requires
        b.id >= 0,
        b.adr_id is Some ==> b.adr_id.unwrap() >= 0,
    ensures
        r@ == blip_sync_markdown(*b, author@),
{
    let mut s = String::from_str("---\n id: \"");
    let id_str = i32_string(b.id);
    s.append(id_str.as_str());
    s.append("\"\n name: \"");
    s.append(b.name.as_str());
    s.append("\"\n ring: \"");
    match b.ring {
        Some(ring) => s.append(ring.as_str()),
        None => s.append(""),
    }
    s.append("\"\n quadrant: \"");
    match b.quadrant {
        Some(quadrant) => s.append(quadrant.as_str()),
        None => s.append(""),
    }
    s.append("\"\n tags: [\"");
    match &b.tag {
        Some(t) => s.append(t.as_str()),
        None => s.append(""),
    }
    s.append("\"]\n authors: [\"");
    s.append(author);
    s.append("\"]\n hasAdr: ");
    s.append(bool_string(b.has_adr));
    s.append("\n adrId: ");
    match b.adr_id {
        Some(id) => {
            let adr_id_str = i32_string(id);
            s.append(adr_id_str.as_str());
        },
        None => s.append("null"),
    }
    s.append("\n description: {{description}}\n created: \"");
    s.append(b.created.as_str());
    s.append("\"\n ---\n \n # \"");
    s.append(b.name.as_str());
    s.append("\"\n **Ring**: \"");
    match b.ring {
        Some(ring) => s.append(ring.as_str()),
        None => s.append(""),
    }
    s.append("\"\n **Quadrant**: \"");
    match b.quadrant {
        Some(quadrant) => s.append(quadrant.as_str()),
        None => s.append(""),
    }
    s.append("\"\n **New**: false\n **Description**: {{description}}\n **has ADR**: ");
    s.append(bool_string(b.has_adr));
    s.append("\n ");
    proof {
        assert(s@ =~= blip_sync_markdown(*b, author@));
    }
    s
}

/// The markdown a freshly created ADR is mirrored as.
pub open spec fn adr_create_markdown(
    id: Seq<char>,
    title: Seq<char>,
    blip_name: Seq<char>,
    date: Seq<char>,
    status: Seq<char>,
    author: Seq<char>,
) -> Seq<char> {
    "---\n id: \""@ + id + "\"\n title: \""@ + title + "\"\n blip: "@ + blip_ref_of(blip_name)
        + "\n date: "@ + date + "\n status: \""@ + status + "\"\n authors: [\""@ + author
        + "\"]\n ---\n \n # "@ + title + "\n \n ## Context\n \n "@ + adr_body_context()
        + "\n \n ## Decision\n \n "@ + adr_body_decision() + "\n \n ## Consequences\n \n "@
        + adr_body_consequences() + "\n "@
}

/// The context placeholder of the ADR body template.
pub open spec fn adr_body_context() -> Seq<char> {
    "[Describe the context and problem statement, e.g., in free form using two to three sentences. You may want to articulate the problem in form of a question.]"@
}

/// The decision placeholder of the ADR body template.
pub open spec fn adr_body_decision() -> Seq<char> {
    "[Describe the decision that was made]"@
}

/// The consequences placeholder of the ADR body template.
pub open spec fn adr_body_consequences() -> Seq<char> {
    "[Describe the resulting context, after applying the decision. All consequences should be listed here, not just the \"positive\" ones. A particular decision may have positive, negative, and neutral consequences, but all of them affect the team and project in the future.]"@
}

/// Renders the mirror content of a freshly created ADR.
pub fn render_adr_create(
    id: &str,
    title: &str,
    blip_name: &str,
    date: &str,
    status: &str,
    author: &str,
) -> (r: String)
    ensures
        r@ == adr_create_markdown(id@, title@, blip_name@, date@, status@, author@),
{
    let mut s = String::from_str("---\n id: \"");
    s.append(id);
    s.append("\"\n title: \"");
    s.append(title);
    s.append("\"\n blip: ");
    if blip_name.unicode_len() == 0 {
        s.append("null");
    } else {
        s.append(blip_name);
    }
    s.append("\n date: ");
    s.append(date);
    s.append("\n status: \"");
    s.append(status);
    s.append("\"\n authors: [\"");
    s.append(author);
    s.append("\"]\n ---\n \n # ");
    s.append(title);
    s.append("\n \n ## Context\n \n ");
    s.append(
        "[Describe the context and problem statement, e.g., in free form using two to three sentences. You may want to articulate the problem in form of a question.]",
    );
    s.append("\n \n ## Decision\n \n ");
    s.append("[Describe the decision that was made]");
    s.append("\n \n ## Consequences\n \n ");
    s.append(
        "[Describe the resulting context, after applying the decision. All consequences should be listed here, not just the \"positive\" ones. A particular decision may have positive, negative, and neutral consequences, but all of them affect the team and project in the future.]",
    );
    s.append("\n ");
    s
}

/// The markdown an existing ADR row is mirrored as on re-sync.  Unlike the
/// creation template it carries no authors line, and its blank lines are
/// truly empty.
pub open spec fn adr_sync_markdown(
    id: Seq<char>,
    title: Seq<char>,
    blip_name: Seq<char>,
    date: Seq<char>,
    status: Seq<char>,
) -> Seq<char> {
    "---\n id: \""@ + id + "\"\n title: \""@ + title + "\"\n blip: "@ + blip_ref_of(blip_name)
        + "\n date: "@ + date + "\n status: \""@ + status + "\"\n ---\n\n # "@ + title
        + "\n\n ## Context\n\n "@ + adr_body_context() + "\n\n ## Decision\n\n "@
        + adr_body_decision() + "\n\n ## Consequences\n\n "@ + adr_body_consequences() + "\n "@
}

/// Renders the mirror content of an existing ADR row.
pub fn render_adr_sync(
    id: &str,
    title: &str,
    blip_name: &str,
    date: &str,
    status: &str,
) -> (r: String)
    ensures
        r@ == adr_sync_markdown(id@, title@, blip_name@, date@, status@),
{
    let mut s = String::from_str("---\n id: \"");
    s.append(id);
    s.append("\"\n title: \"");
    s.append(title);
    s.append("\"\n blip: ");
    if blip_name.unicode_len() == 0 {
        s.append("null");
    } else {
        s.append(blip_name);
    }
    s.append("\n date: ");
    s.append(date);
    s.append("\n status: \"");
    s.append(status);
    s.append("\"\n ---\n\n # ");
    s.append(title);
    s.append("\n\n ## Context\n\n ");
    s.append(
        "[Describe the context and problem statement, e.g., in free form using two to three sentences. You may want to articulate the problem in form of a question.]",
    );
    s.append("\n\n ## Decision\n\n ");
    s.append("[Describe the decision that was made]");
    s.append("\n\n ## Consequences\n\n ");
    s.append(
        "[Describe the resulting context, after applying the decision. All consequences should be listed here, not just the \"positive\" ones. A particular decision may have positive, negative, and neutral consequences, but all of them affect the team and project in the future.]",
    );
    s.append("\n ");
    s
}

/// Law: mirror writing is idempotent.  The rendered bytes are a function of
/// the record and the author alone, so two renderings of the same record
/// are byte-identical.
pub proof fn lemma_mirror_idempotent(b: BlipRecord, author: Seq<char>, c1: Seq<char>, c2: Seq<char>)
    requires
        c1 == blip_sync_markdown(b, author),
        c2 == blip_sync_markdown(b, author),
    ensures
        c1 == c2,
{
}

} // verus!
