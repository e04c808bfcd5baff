//! The catalog of threads that may be imported, and its one canonical text.

use crate::json_text::json_string;
use vstd::prelude::*;
use vstd::string::*;

verus! {

/// Which session of the agent a source thread is imported as.
#[derive(Clone, Debug)]
pub struct ImportBinding {
    pub source_t3_thread_id: String,
    pub title: String,
    pub managed_codex_session_id: String,
}

/// The catalog.
#[derive(Debug)]
pub struct ImportBindings {
    pub schema: String,
    /// The `type` of the catalog.
    pub kind: String,
    pub profile: String,
    pub project_path: String,
    pub source_catalog_sha256: String,
    pub entries: Vec<ImportBinding>,
}

/// What a binding says.
pub struct BindingModel {
    pub source: Seq<char>,
    pub title: Seq<char>,
    pub codex_id: Seq<char>,
}

/// What a catalog says.
pub struct CatalogModel {
    pub schema: Seq<char>,
    pub kind: Seq<char>,
    pub profile: Seq<char>,
    pub project_path: Seq<char>,
    pub sha256: Seq<char>,
    pub entries: Seq<BindingModel>,
}

impl View for ImportBinding {
    type V = BindingModel;

    open spec fn view(&self) -> BindingModel {
        BindingModel {
            source: self.source_t3_thread_id@,
            title: self.title@,
            codex_id: self.managed_codex_session_id@,
        }
    }
}

impl View for ImportBindings {
    type V = CatalogModel;

    open spec fn view(&self) -> CatalogModel {
        CatalogModel {
            schema: self.schema@,
            kind: self.kind@,
            profile: self.profile@,
            project_path: self.project_path@,
            sha256: self.source_catalog_sha256@,
            entries: self.entries@.map_values(|entry: ImportBinding| entry@),
        }
    }
}

/// A JSON member of an object: what stands before its value, then its value.
pub open spec fn member(opening: Seq<char>, value: Seq<char>) -> Seq<char> {
    opening + crate::json_text::json_text(value)
}

/// The JSON text of a binding.
pub open spec fn binding_text(b: BindingModel) -> Seq<char> {
    member("{\"source_t3_thread_id\":"@, b.source) + member(",\"title\":"@, b.title) + member(
        ",\"managed_codex_session_id\":"@,
        b.codex_id,
    ) + seq!['}']
}

/// The JSON text of bindings that follow others in a list.
pub open spec fn following_bindings_text(entries: Seq<BindingModel>) -> Seq<char>
    decreases entries.len(),
{
    if entries.len() == 0 {
        Seq::empty()
    } else {
        seq![','] + binding_text(entries[0]) + following_bindings_text(entries.drop_first())
    }
}

/// The JSON text of a list of bindings, without its brackets.
pub open spec fn bindings_text(entries: Seq<BindingModel>) -> Seq<char> {
    if entries.len() == 0 {
        Seq::empty()
    } else {
        binding_text(entries[0]) + following_bindings_text(entries.drop_first())
    }
}

/// The canonical JSON text of a catalog: its members in this order, without any
/// white space.
pub open spec fn catalog_text(c: CatalogModel) -> Seq<char> {
    member("{\"schema\":"@, c.schema) + member(",\"type\":"@, c.kind) + member(
        ",\"profile\":"@,
        c.profile,
    ) + member(",\"project_path\":"@, c.project_path) + member(
        ",\"source_catalog_sha256\":"@,
        c.sha256,
    ) + ",\"entries\":["@ + bindings_text(c.entries) + "]}"@
}

/// The one file content that a catalog may have: its canonical text and a line
/// feed, in UTF-8.
pub open spec fn canonical_bytes(c: CatalogModel) -> Seq<u8> {
    vstd::utf8::encode_utf8(catalog_text(c).push('\n'))
}

fn append_member(out: &mut String, opening: &str, value: &str)
    ensures
        final(out)@ == old(out)@ + member(opening@, value@),
{
    out.append(opening);
    let literal = json_string(value);
    out.append(literal.as_str());
    assert(out@ =~= old(out)@ + member(opening@, value@));
}

fn append_binding(out: &mut String, b: &ImportBinding)
    ensures
        final(out)@ == old(out)@ + binding_text(b@),
{
    append_member(out, "{\"source_t3_thread_id\":", b.source_t3_thread_id.as_str());
    append_member(out, ",\"title\":", b.title.as_str());
    append_member(out, ",\"managed_codex_session_id\":", b.managed_codex_session_id.as_str());
    out.push('}');
    assert(out@ =~= old(out)@ + binding_text(b@));
}

fn append_bindings(out: &mut String, entries: &Vec<ImportBinding>)
    ensures
        final(out)@ == old(out)@ + bindings_text(
            entries@.map_values(|entry: ImportBinding| entry@),
        ),
{
    let ghost models = entries@.map_values(|entry: ImportBinding| entry@);
    let ghost start = out@;
    if entries.len() == 0 {
        assert(out@ =~= start + bindings_text(models));
        return ;
    }
    append_binding(out, &entries[0]);
    let mut i: usize = 1;
    assert(models.skip(1) =~= models.drop_first());
    assert(out@ + following_bindings_text(models.skip(1)) =~= start + bindings_text(models));
    while i < entries.len()
        invariant
            1 <= i <= entries@.len(),
            models == entries@.map_values(|entry: ImportBinding| entry@),
            out@ + following_bindings_text(models.skip(i as int)) == start + bindings_text(models),
        decreases entries@.len() - i,
    {
        let ghost before = out@;
        out.push(',');
        append_binding(out, &entries[i]);
        proof {
            let rest = models.skip(i as int);
            assert(rest[0] == entries@[i as int]@);
            assert(rest.drop_first() =~= models.skip(i + 1));
            assert(out@ + following_bindings_text(models.skip(i + 1)) =~= before
                + following_bindings_text(rest));
        }
        i = i + 1;
    }
    assert(models.skip(i as int) =~= Seq::empty());
    assert(out@ =~= out@ + following_bindings_text(models.skip(i as int)));
}

/// The canonical JSON text of a catalog.
pub fn canonical_text(catalog: &ImportBindings) -> (r: String)
    ensures
        r@ == catalog_text(catalog@),
{
    let mut out = String::new();
    append_member(&mut out, "{\"schema\":", catalog.schema.as_str());
    append_member(&mut out, ",\"type\":", catalog.kind.as_str());
    append_member(&mut out, ",\"profile\":", catalog.profile.as_str());
    append_member(&mut out, ",\"project_path\":", catalog.project_path.as_str());
    append_member(
        &mut out,
        ",\"source_catalog_sha256\":",
        catalog.source_catalog_sha256.as_str(),
    );
    out.append(",\"entries\":[");
    append_bindings(&mut out, &catalog.entries);
    out.append("]}");
    assert(out@ =~= catalog_text(catalog@));
    out
}

fn same_bytes(a: &[u8], b: &[u8]) -> (r: bool)
    ensures
        r == (a@ == b@),
{
    if a.len() != b.len() {
        return false;
    }
    let mut i: usize = 0;
    while i < a.len()
        invariant
            i <= a@.len() == b@.len(),
            forall|j: int| 0 <= j < i ==> a@[j] == b@[j],
        decreases a@.len() - i,
    {
        if a[i] != b[i] {
            return false;
        }
        i = i + 1;
    }
    assert(a@ =~= b@);
    true
}

/// Whether `bytes` are the canonical content of the catalog.
pub fn is_canonical(catalog: &ImportBindings, bytes: &[u8]) -> (r: bool)
    ensures
        r == (bytes@ == canonical_bytes(catalog@)),
{
    let mut text = canonical_text(catalog);
    text.push('\n');
    same_bytes(text.as_str().as_bytes(), bytes)
}

proof fn after_prefix(prefix: Seq<char>, s: Seq<char>, t: Seq<char>)
    requires
        prefix + s == prefix + t,
    ensures
        s == t,
{
    assert(s =~= (prefix + s).skip(prefix.len() as int));
    assert(t =~= (prefix + t).skip(prefix.len() as int));
}

proof fn members_are_unique(
    opening: Seq<char>,
    a: Seq<char>,
    s: Seq<char>,
    b: Seq<char>,
    t: Seq<char>,
)
    requires
        member(opening, a) + s == member(opening, b) + t,
    ensures
        a == b,
        s == t,
{
    assert(member(opening, a) + s =~= opening + (crate::json_text::json_text(a) + s));
    assert(member(opening, b) + t =~= opening + (crate::json_text::json_text(b) + t));
    after_prefix(
        opening,
        crate::json_text::json_text(a) + s,
        crate::json_text::json_text(b) + t,
    );
    crate::json_text::literals_are_unique(a, s, b, t);
}

proof fn binding_texts_are_unique(a: BindingModel, s: Seq<char>, b: BindingModel, t: Seq<char>)
    requires
        binding_text(a) + s == binding_text(b) + t,
    ensures
        a == b,
        s == t,
{
    let source = "{\"source_t3_thread_id\":"@;
    let title = ",\"title\":"@;
    let codex = ",\"managed_codex_session_id\":"@;
    let s3 = seq!['}'] + s;
    let t3 = seq!['}'] + t;
    let s2 = member(codex, a.codex_id) + s3;
    let t2 = member(codex, b.codex_id) + t3;
    let s1 = member(title, a.title) + s2;
    let t1 = member(title, b.title) + t2;
    assert(binding_text(a) + s =~= member(source, a.source) + s1);
    assert(binding_text(b) + t =~= member(source, b.source) + t1);
    members_are_unique(source, a.source, s1, b.source, t1);
    members_are_unique(title, a.title, s2, b.title, t2);
    members_are_unique(codex, a.codex_id, s3, b.codex_id, t3);
    after_prefix(seq!['}'], s, t);
}

/// Lists of bindings that are followed by the closing bracket are told apart by
/// their texts.
proof fn following_texts_are_unique(a: Seq<BindingModel>, b: Seq<BindingModel>, end: Seq<char>)
    requires
        end.len() > 0,
        end[0] == ']',
        following_bindings_text(a) + end == following_bindings_text(b) + end,
    ensures
        a == b,
    decreases a.len(),
{
    let whole = following_bindings_text(a) + end;
    let other = following_bindings_text(b) + end;
    if a.len() == 0 && b.len() == 0 {
        assert(a =~= b);
    } else if a.len() == 0 {
        assert(whole[0] == ']' && other[0] == ',');
    } else if b.len() == 0 {
        assert(whole[0] == ',' && other[0] == ']');
    } else {
        let s = following_bindings_text(a.drop_first()) + end;
        let t = following_bindings_text(b.drop_first()) + end;
        assert(whole =~= seq![','] + (binding_text(a[0]) + s));
        assert(other =~= seq![','] + (binding_text(b[0]) + t));
        after_prefix(seq![','], binding_text(a[0]) + s, binding_text(b[0]) + t);
        binding_texts_are_unique(a[0], s, b[0], t);
        following_texts_are_unique(a.drop_first(), b.drop_first(), end);
        assert(a =~= seq![a[0]] + a.drop_first());
        assert(b =~= seq![b[0]] + b.drop_first());
    }
}

proof fn bindings_texts_are_unique(a: Seq<BindingModel>, b: Seq<BindingModel>, end: Seq<char>)
    requires
        end.len() > 0,
        end[0] == ']',
        bindings_text(a) + end == bindings_text(b) + end,
    ensures
        a == b,
{
    reveal_strlit("{\"source_t3_thread_id\":");
    let whole = bindings_text(a) + end;
    let other = bindings_text(b) + end;
    if a.len() == 0 && b.len() == 0 {
        assert(a =~= b);
    } else if a.len() == 0 {
        assert(whole[0] == ']' && other[0] == '{');
    } else if b.len() == 0 {
        assert(whole[0] == '{' && other[0] == ']');
    } else {
        let s = following_bindings_text(a.drop_first()) + end;
        let t = following_bindings_text(b.drop_first()) + end;
        assert(whole =~= binding_text(a[0]) + s);
        assert(other =~= binding_text(b[0]) + t);
        binding_texts_are_unique(a[0], s, b[0], t);
        following_texts_are_unique(a.drop_first(), b.drop_first(), end);
        assert(a =~= seq![a[0]] + a.drop_first());
        assert(b =~= seq![b[0]] + b.drop_first());
    }
}

/// Concatenation is associative, for eight texts.
proof fn regrouped(
    a: Seq<char>,
    b: Seq<char>,
    c: Seq<char>,
    d: Seq<char>,
    e: Seq<char>,
    f: Seq<char>,
    g: Seq<char>,
    h: Seq<char>,
)
    ensures
        a + b + c + d + e + f + g + h == a + (b + (c + (d + (e + (f + (g + h)))))),
{
    let tail = e + (f + (g + h));
    assert(e + f + g + h =~= tail);
    assert(a + b + c + d + e + f + g + h =~= a + b + c + d + (e + f + g + h));
    assert(a + b + c + d + tail =~= a + (b + (c + (d + tail))));
}

/// Two catalogs with the same canonical text are the same catalog.
pub proof fn catalog_texts_are_unique(a: CatalogModel, b: CatalogModel)
    requires
        catalog_text(a) == catalog_text(b),
    ensures
        a == b,
{
    reveal_strlit("]}");
    let schema = "{\"schema\":"@;
    let kind = ",\"type\":"@;
    let profile = ",\"profile\":"@;
    let project = ",\"project_path\":"@;
    let sha256 = ",\"source_catalog_sha256\":"@;
    let entries = ",\"entries\":["@;
    let end = "]}"@;
    let s6 = bindings_text(a.entries) + end;
    let t6 = bindings_text(b.entries) + end;
    let s5 = entries + s6;
    let t5 = entries + t6;
    let s4 = member(sha256, a.sha256) + s5;
    let t4 = member(sha256, b.sha256) + t5;
    let s3 = member(project, a.project_path) + s4;
    let t3 = member(project, b.project_path) + t4;
    let s2 = member(profile, a.profile) + s3;
    let t2 = member(profile, b.profile) + t3;
    let s1 = member(kind, a.kind) + s2;
    let t1 = member(kind, b.kind) + t2;
    regrouped(
        member(schema, a.schema),
        member(kind, a.kind),
        member(profile, a.profile),
        member(project, a.project_path),
        member(sha256, a.sha256),
        entries,
        bindings_text(a.entries),
        end,
    );
    regrouped(
        member(schema, b.schema),
        member(kind, b.kind),
        member(profile, b.profile),
        member(project, b.project_path),
        member(sha256, b.sha256),
        entries,
        bindings_text(b.entries),
        end,
    );
    members_are_unique(schema, a.schema, s1, b.schema, t1);
    members_are_unique(kind, a.kind, s2, b.kind, t2);
    members_are_unique(profile, a.profile, s3, b.profile, t3);
    members_are_unique(project, a.project_path, s4, b.project_path, t4);
    members_are_unique(sha256, a.sha256, s5, b.sha256, t5);
    after_prefix(entries, s6, t6);
    bindings_texts_are_unique(a.entries, b.entries, end);
}

/// A file content is the canonical content of at most one catalog.
pub proof fn canonical_bytes_are_unique(a: CatalogModel, b: CatalogModel)
    requires
        canonical_bytes(a) == canonical_bytes(b),
    ensures
        a == b,
{
    vstd::utf8::encode_utf8_decode_utf8(catalog_text(a).push('\n'));
    vstd::utf8::encode_utf8_decode_utf8(catalog_text(b).push('\n'));
    assert(catalog_text(a) =~= catalog_text(a).push('\n').drop_last());
    assert(catalog_text(b) =~= catalog_text(b).push('\n').drop_last());
    catalog_texts_are_unique(a, b);
}

proof fn encoding_of_line(s: Seq<char>)
    ensures
        vstd::utf8::encode_utf8(s.push('\n')).len() > 0,
        vstd::utf8::encode_utf8(s.push('\n')).last() == 10u8,
    decreases s.len(),
{
    let whole = s.push('\n');
    let rest = whole.drop_first();
    if s.len() == 0 {
        assert(whole =~= seq!['\n']);
        assert(vstd::utf8::is_ascii_chars(whole));
        vstd::utf8::is_ascii_chars_encode_utf8(whole);
    } else {
        assert(rest =~= s.drop_first().push('\n'));
        encoding_of_line(s.drop_first());
    }
}

/// The canonical content of a catalog ends in a line feed.
pub proof fn canonical_bytes_end_in_a_line_feed(c: CatalogModel)
    ensures
        canonical_bytes(c).len() > 0,
        canonical_bytes(c).last() == 10u8,
{
    encoding_of_line(catalog_text(c));
}

/// The text of a binding is an object of its source, its title and its agent
/// session, in this order, each behind its name.
pub proof fn bindings_are_written_as_objects(b: BindingModel)
    ensures
        binding_text(b) == "{\"source_t3_thread_id\":"@ + crate::json_text::json_text(b.source)
            + ",\"title\":"@ + crate::json_text::json_text(b.title)
            + ",\"managed_codex_session_id\":"@ + crate::json_text::json_text(b.codex_id)
            + seq!['}'],
{
    let source = crate::json_text::json_text(b.source);
    let title = crate::json_text::json_text(b.title);
    let codex = crate::json_text::json_text(b.codex_id);
    assert(binding_text(b) =~= "{\"source_t3_thread_id\":"@ + source + ",\"title\":"@ + title
        + ",\"managed_codex_session_id\":"@ + codex + seq!['}']);
}

/// Bindings are written one behind the other, with a comma between each two, and a
/// single one as it is.
pub proof fn bindings_are_written_with_commas(
    a: Seq<BindingModel>,
    b: Seq<BindingModel>,
    x: BindingModel,
)
    ensures
        bindings_text(Seq::empty()) == Seq::<char>::empty(),
        bindings_text(seq![x]) == binding_text(x),
        a.len() > 0 && b.len() > 0 ==> bindings_text(a + b) == bindings_text(a) + seq![',']
            + bindings_text(b),
{
    assert(seq![x].drop_first() =~= Seq::empty());
    assert(bindings_text(seq![x]) =~= binding_text(x));
    if a.len() > 0 && b.len() > 0 {
        following_texts_concatenate(a.drop_first(), b);
        assert((a + b).drop_first() =~= a.drop_first() + b);
        assert(following_bindings_text(b) =~= seq![','] + bindings_text(b));
        assert(bindings_text(a + b) =~= bindings_text(a) + seq![','] + bindings_text(b));
    }
}

proof fn following_texts_concatenate(a: Seq<BindingModel>, b: Seq<BindingModel>)
    ensures
        following_bindings_text(a + b) == following_bindings_text(a) + following_bindings_text(b),
    decreases a.len(),
{
    if a.len() == 0 {
        assert(a + b =~= b);
        assert(following_bindings_text(a) + following_bindings_text(b) =~= following_bindings_text(
            b,
        ));
    } else {
        following_texts_concatenate(a.drop_first(), b);
        assert((a + b).drop_first() =~= a.drop_first() + b);
        assert(following_bindings_text(a + b) =~= following_bindings_text(a)
            + following_bindings_text(b));
    }
}

/// The text of a catalog is an object of its schema, type, profile, project,
/// digest and list of bindings, in this order, each behind its name.
pub proof fn catalogs_are_written_as_objects(c: CatalogModel)
    ensures
        catalog_text(c) == ("{\"schema\":"@ + crate::json_text::json_text(c.schema)) + (
        ",\"type\":"@ + crate::json_text::json_text(c.kind)) + (",\"profile\":"@
            + crate::json_text::json_text(c.profile)) + (",\"project_path\":"@
            + crate::json_text::json_text(c.project_path)) + (",\"source_catalog_sha256\":"@
            + crate::json_text::json_text(c.sha256)) + ",\"entries\":["@ + bindings_text(c.entries)
            + "]}"@,
        canonical_bytes(c) == vstd::utf8::encode_utf8(catalog_text(c) + seq!['\n']),
{
    assert(catalog_text(c).push('\n') =~= catalog_text(c) + seq!['\n']);
}

/// A catalog says what its fields say.
pub proof fn models_say_what_the_fields_say(catalog: ImportBindings, i: int)
    ensures
        catalog@.schema == catalog.schema@,
        catalog@.kind == catalog.kind@,
        catalog@.profile == catalog.profile@,
        catalog@.project_path == catalog.project_path@,
        catalog@.sha256 == catalog.source_catalog_sha256@,
        catalog@.entries.len() == catalog.entries@.len(),
        0 <= i < catalog.entries@.len() ==> catalog@.entries[i].source
            == catalog.entries@[i].source_t3_thread_id@ && catalog@.entries[i].title
            == catalog.entries@[i].title@ && catalog@.entries[i].codex_id
            == catalog.entries@[i].managed_codex_session_id@,
{
}

}
