//! Inline assets and the Content-Security-Policy that whitelists them.
//!
//! Every inline `<style>` / `<script>` a page emits carries the base64
//! SHA-256 of its body; the page's policy lists exactly those hashes.

use crate::digest::{body_sha256_b64, leak_text, sha256_b64};
use vstd::prelude::*;

verus! {

/// An inline `<style>` block whose body and SHA-256 are fixed at build time.
#[derive(Debug)]
pub struct InlineStyle {
    body: &'static str,
    hash_b64: &'static str,
}

impl InlineStyle {
    /// The element this block renders as: `<style>…</style>`, with the body verbatim
    /// (it is trusted source that lives with the site).
    pub open spec fn element(&self) -> Seq<char> {
        "<style>"@ + self.body_text()@ + "</style>"@
    }

    /// Render the block as its element.
    pub fn render(&self) -> (r: String)
        ensures
            r@ == self.element(),
    {
        let mut r = String::from_str("<style>");
        r.append(self.body);
        r.append("</style>");
        r
    }

    pub closed spec fn body_text(&self) -> &'static str {
        self.body
    }

    pub closed spec fn hash_text(&self) -> &'static str {
        self.hash_b64
    }

    /// The block with this body; its fingerprint is computed from the body.
    pub fn new(body: &'static str) -> (r: Self)
        ensures
            r.body_text() == body,
            r.hash_text()@ == sha256_b64(vstd::utf8::encode_utf8(body@)),
            r.hash_text()@.len() == 44,
    {
        let hash_b64 = leak_text(body_sha256_b64(body));
        Self { body, hash_b64 }
    }

    /// The fingerprint is the base64 SHA-256 of the body's bytes, 44
    /// characters long.
    #[verifier::type_invariant]
    closed spec fn fingerprint_matches(self) -> bool {
        &&& self.hash_b64@ == sha256_b64(vstd::utf8::encode_utf8(self.body@))
        &&& self.hash_b64@.len() == 44
    }

    /// The CSS source, emitted verbatim inside `<style>…</style>`.
    pub fn body(&self) -> (r: &'static str)
        ensures
            r == self.body_text(),
    {
        self.body
    }

    /// Base64-encoded SHA-256 of the body, ready to drop into a CSP
    /// `'sha256-<value>'` source expression.
    pub fn hash_b64(&self) -> (r: &'static str)
        ensures
            r == self.hash_text(),
            r@ == sha256_b64(vstd::utf8::encode_utf8(self.body_text()@)),
            r@.len() == 44,
    {
        proof {
            use_type_invariant(self);
        }
        self.hash_b64
    }
}

/// An inline classic `<script>` block (synchronous, runs at parse time).
#[derive(Debug)]
pub struct InlineScript {
    body: &'static str,
    hash_b64: &'static str,
}

impl InlineScript {
    /// The element this block renders as: a classic `<script>…</script>`, with the body verbatim
    /// (it is trusted source that lives with the site).
    pub open spec fn element(&self) -> Seq<char> {
        "<script>"@ + self.body_text()@ + "</script>"@
    }

    /// Render the block as its element.
    pub fn render(&self) -> (r: String)
        ensures
            r@ == self.element(),
    {
        let mut r = String::from_str("<script>");
        r.append(self.body);
        r.append("</script>");
        r
    }

    pub closed spec fn body_text(&self) -> &'static str {
        self.body
    }

    pub closed spec fn hash_text(&self) -> &'static str {
        self.hash_b64
    }

    /// The block with this body; its fingerprint is computed from the body.
    pub fn new(body: &'static str) -> (r: Self)
        ensures
            r.body_text() == body,
            r.hash_text()@ == sha256_b64(vstd::utf8::encode_utf8(body@)),
            r.hash_text()@.len() == 44,
    {
        let hash_b64 = leak_text(body_sha256_b64(body));
        Self { body, hash_b64 }
    }

    /// The fingerprint is the base64 SHA-256 of the body's bytes, 44
    /// characters long.
    #[verifier::type_invariant]
    closed spec fn fingerprint_matches(self) -> bool {
        &&& self.hash_b64@ == sha256_b64(vstd::utf8::encode_utf8(self.body@))
        &&& self.hash_b64@.len() == 44
    }

    pub fn body(&self) -> (r: &'static str)
        ensures
            r == self.body_text(),
    {
        self.body
    }

    pub fn hash_b64(&self) -> (r: &'static str)
        ensures
            r == self.hash_text(),
            r@ == sha256_b64(vstd::utf8::encode_utf8(self.body_text()@)),
            r@.len() == 44,
    {
        proof {
            use_type_invariant(self);
        }
        self.hash_b64
    }
}

/// An inline `<script type="module">` block.
#[derive(Debug)]
pub struct InlineModuleScript {
    body: &'static str,
    hash_b64: &'static str,
}

impl InlineModuleScript {
    /// The element this block renders as: `<script type="module">…</script>`, with the body verbatim
    /// (it is trusted source that lives with the site).
    pub open spec fn element(&self) -> Seq<char> {
        "<script type=\"module\">"@ + self.body_text()@ + "</script>"@
    }

    /// Render the block as its element.
    pub fn render(&self) -> (r: String)
        ensures
            r@ == self.element(),
    {
        let mut r = String::from_str("<script type=\"module\">");
        r.append(self.body);
        r.append("</script>");
        r
    }

    pub closed spec fn body_text(&self) -> &'static str {
        self.body
    }

    pub closed spec fn hash_text(&self) -> &'static str {
        self.hash_b64
    }

    /// The block with this body; its fingerprint is computed from the body.
    pub fn new(body: &'static str) -> (r: Self)
        ensures
            r.body_text() == body,
            r.hash_text()@ == sha256_b64(vstd::utf8::encode_utf8(body@)),
            r.hash_text()@.len() == 44,
    {
        let hash_b64 = leak_text(body_sha256_b64(body));
        Self { body, hash_b64 }
    }

    /// The fingerprint is the base64 SHA-256 of the body's bytes, 44
    /// characters long.
    #[verifier::type_invariant]
    closed spec fn fingerprint_matches(self) -> bool {
        &&& self.hash_b64@ == sha256_b64(vstd::utf8::encode_utf8(self.body@))
        &&& self.hash_b64@.len() == 44
    }

    pub fn body(&self) -> (r: &'static str)
        ensures
            r == self.body_text(),
    {
        self.body
    }

    pub fn hash_b64(&self) -> (r: &'static str)
        ensures
            r == self.hash_text(),
            r@ == sha256_b64(vstd::utf8::encode_utf8(self.body_text()@)),
            r@.len() == 44,
    {
        proof {
            use_type_invariant(self);
        }
        self.hash_b64
    }
}

/// The inline `<script type="importmap">` declaring the `@homework`
/// bare-specifier mapping.
#[derive(Debug)]
pub struct InlineImportmap {
    body: &'static str,
    hash_b64: &'static str,
}

impl InlineImportmap {
    /// The element this block renders as: `<script type="importmap">…</script>`, with the body verbatim
    /// (it is trusted source that lives with the site).
    pub open spec fn element(&self) -> Seq<char> {
        "<script type=\"importmap\">"@ + self.body_text()@ + "</script>"@
    }

    /// Render the block as its element.
    pub fn render(&self) -> (r: String)
        ensures
            r@ == self.element(),
    {
        let mut r = String::from_str("<script type=\"importmap\">");
        r.append(self.body);
        r.append("</script>");
        r
    }

    pub closed spec fn body_text(&self) -> &'static str {
        self.body
    }

    pub closed spec fn hash_text(&self) -> &'static str {
        self.hash_b64
    }

    /// The block with this body; its fingerprint is computed from the body.
    pub fn new(body: &'static str) -> (r: Self)
        ensures
            r.body_text() == body,
            r.hash_text()@ == sha256_b64(vstd::utf8::encode_utf8(body@)),
            r.hash_text()@.len() == 44,
    {
        let hash_b64 = leak_text(body_sha256_b64(body));
        Self { body, hash_b64 }
    }

    /// The fingerprint is the base64 SHA-256 of the body's bytes, 44
    /// characters long.
    #[verifier::type_invariant]
    closed spec fn fingerprint_matches(self) -> bool {
        &&& self.hash_b64@ == sha256_b64(vstd::utf8::encode_utf8(self.body@))
        &&& self.hash_b64@.len() == 44
    }

    pub fn body(&self) -> (r: &'static str)
        ensures
            r == self.body_text(),
    {
        self.body
    }

    pub fn hash_b64(&self) -> (r: &'static str)
        ensures
            r == self.hash_text(),
            r@ == sha256_b64(vstd::utf8::encode_utf8(self.body_text()@)),
            r@.len() == 44,
    {
        proof {
            use_type_invariant(self);
        }
        self.hash_b64
    }
}

/// An inline `<script type="speculationrules">`. Its body is not hashed:
/// the policy admits it through the `'inline-speculation-rules'` keyword.
#[derive(Debug)]
pub struct InlineSpeculationRules {
    body: &'static str,
}

impl InlineSpeculationRules {
    /// The element this block renders as: `<script type="speculationrules">…</script>`, with the body verbatim
    /// (it is trusted source that lives with the site).
    pub open spec fn element(&self) -> Seq<char> {
        "<script type=\"speculationrules\">"@ + self.body_text()@ + "</script>"@
    }

    /// Render the block as its element.
    pub fn render(&self) -> (r: String)
        ensures
            r@ == self.element(),
    {
        let mut r = String::from_str("<script type=\"speculationrules\">");
        r.append(self.body);
        r.append("</script>");
        r
    }

    pub closed spec fn body_text(&self) -> &'static str {
        self.body
    }

    pub fn new(body: &'static str) -> (r: Self)
        ensures
            r.body_text() == body,
    {
        Self { body }
    }

    pub fn body(&self) -> (r: &'static str)
        ensures
            r == self.body_text(),
    {
        self.body
    }
}

/// An inline `<script type="application/ld+json">` carrying schema.org data.
#[derive(Debug)]
pub struct InlineLdJson {
    body: &'static str,
    hash_b64: &'static str,
}

impl InlineLdJson {
    /// The element this block renders as: `<script type="application/ld+json">…</script>`, with the body verbatim
    /// (it is trusted source that lives with the site).
    pub open spec fn element(&self) -> Seq<char> {
        "<script type=\"application/ld+json\">"@ + self.body_text()@ + "</script>"@
    }

    /// Render the block as its element.
    pub fn render(&self) -> (r: String)
        ensures
            r@ == self.element(),
    {
        let mut r = String::from_str("<script type=\"application/ld+json\">");
        r.append(self.body);
        r.append("</script>");
        r
    }

    pub closed spec fn body_text(&self) -> &'static str {
        self.body
    }

    pub closed spec fn hash_text(&self) -> &'static str {
        self.hash_b64
    }

    /// The block with this body; its fingerprint is computed from the body.
    pub fn new(body: &'static str) -> (r: Self)
        ensures
            r.body_text() == body,
            r.hash_text()@ == sha256_b64(vstd::utf8::encode_utf8(body@)),
            r.hash_text()@.len() == 44,
    {
        let hash_b64 = leak_text(body_sha256_b64(body));
        Self { body, hash_b64 }
    }

    /// The fingerprint is the base64 SHA-256 of the body's bytes, 44
    /// characters long.
    #[verifier::type_invariant]
    closed spec fn fingerprint_matches(self) -> bool {
        &&& self.hash_b64@ == sha256_b64(vstd::utf8::encode_utf8(self.body@))
        &&& self.hash_b64@.len() == 44
    }

    pub fn body(&self) -> (r: &'static str)
        ensures
            r == self.body_text(),
    {
        self.body
    }

    pub fn hash_b64(&self) -> (r: &'static str)
        ensures
            r == self.hash_text(),
            r@ == sha256_b64(vstd::utf8::encode_utf8(self.body_text()@)),
            r@.len() == 44,
    {
        proof {
            use_type_invariant(self);
        }
        self.hash_b64
    }
}


/// One source expression of a Content-Security-Policy directive.
#[derive(Debug, Clone, Copy)]
pub enum CspSource {
    /// `'self'`: the page's own origin.
    SelfOrigin,
    /// `'none'`: nothing may be loaded.
    NoSource,
    /// `'sha256-<base64>'`: an inline block with this hash.
    Sha256(&'static str),
    /// `'inline-speculation-rules'`: inline speculation-rules scripts.
    InlineSpeculationRules,
    /// `https:`: any origin over HTTPS.
    HttpsScheme,
    /// `data:` URLs.
    Data,
    /// `blob:` URLs.
    Blob,
}

/// The directives the site's policies use.
#[derive(Debug, Clone, Copy)]
pub enum CspDirective {
    DefaultSrc,
    ScriptSrc,
    StyleSrc,
    ImgSrc,
    ConnectSrc,
    FontSrc,
    ObjectSrc,
    BaseUri,
    FormAction,
    FrameAncestors,
}

/// One directive of a policy with its source list.
#[derive(Debug)]
pub struct CspEntry {
    pub directive: CspDirective,
    pub sources: Vec<CspSource>,
}

/// A Content-Security-Policy: its directives in the order they are sent.
#[derive(Debug)]
pub struct CspPolicy {
    pub entries: Vec<CspEntry>,
}

impl View for CspEntry {
    type V = (CspDirective, Seq<CspSource>);

    open spec fn view(&self) -> (CspDirective, Seq<CspSource>) {
        (self.directive, self.sources@)
    }
}

impl View for CspPolicy {
    type V = Seq<(CspDirective, Seq<CspSource>)>;

    open spec fn view(&self) -> Seq<(CspDirective, Seq<CspSource>)> {
        self.entries@.map_values(|e: CspEntry| e@)
    }
}

/// The name of a directive as it appears in the header.
pub open spec fn directive_name(d: CspDirective) -> Seq<char> {
    match d {
        CspDirective::DefaultSrc => "default-src"@,
        CspDirective::ScriptSrc => "script-src"@,
        CspDirective::StyleSrc => "style-src"@,
        CspDirective::ImgSrc => "img-src"@,
        CspDirective::ConnectSrc => "connect-src"@,
        CspDirective::FontSrc => "font-src"@,
        CspDirective::ObjectSrc => "object-src"@,
        CspDirective::BaseUri => "base-uri"@,
        CspDirective::FormAction => "form-action"@,
        CspDirective::FrameAncestors => "frame-ancestors"@,
    }
}

/// A source expression as it appears in the header.
pub open spec fn source_text(s: CspSource) -> Seq<char> {
    match s {
        CspSource::SelfOrigin => "'self'"@,
        CspSource::NoSource => "'none'"@,
        CspSource::Sha256(h) => "'sha256-"@ + h@ + "'"@,
        CspSource::InlineSpeculationRules => "'inline-speculation-rules'"@,
        CspSource::HttpsScheme => "https:"@,
        CspSource::Data => "data:"@,
        CspSource::Blob => "blob:"@,
    }
}

/// Each source preceded by a space.
pub open spec fn sources_text(sources: Seq<CspSource>) -> Seq<char>
    decreases sources.len(),
{
    if sources.len() == 0 {
        Seq::<char>::empty()
    } else {
        sources_text(sources.drop_last()) + " "@ + source_text(sources.last())
    }
}

/// One directive: its name followed by its sources.
pub open spec fn entry_text(e: (CspDirective, Seq<CspSource>)) -> Seq<char> {
    directive_name(e.0) + sources_text(e.1)
}

/// The header value: the directives separated by `; `.
pub open spec fn policy_text(entries: Seq<(CspDirective, Seq<CspSource>)>) -> Seq<char>
    decreases entries.len(),
{
    if entries.len() == 0 {
        Seq::<char>::empty()
    } else if entries.len() == 1 {
        entry_text(entries[0])
    } else {
        policy_text(entries.drop_last()) + "; "@ + entry_text(entries.last())
    }
}

/// The hashes a source list admits.
pub open spec fn admitted_hash(sources: Seq<CspSource>, h: &'static str) -> bool {
    sources.contains(CspSource::Sha256(h))
}

fn directive_name_str(d: CspDirective) -> (r: &'static str)
    ensures
        r@ == directive_name(d),
{
    match d {
        CspDirective::DefaultSrc => "default-src",
        CspDirective::ScriptSrc => "script-src",
        CspDirective::StyleSrc => "style-src",
        CspDirective::ImgSrc => "img-src",
        CspDirective::ConnectSrc => "connect-src",
        CspDirective::FontSrc => "font-src",
        CspDirective::ObjectSrc => "object-src",
        CspDirective::BaseUri => "base-uri",
        CspDirective::FormAction => "form-action",
        CspDirective::FrameAncestors => "frame-ancestors",
    }
}

fn append_source(out: &mut String, s: CspSource)
    ensures
        final(out)@ == old(out)@ + source_text(s),
{
    match s {
        CspSource::SelfOrigin => out.append("'self'"),
        CspSource::NoSource => out.append("'none'"),
        CspSource::Sha256(h) => {
            out.append("'sha256-");
            out.append(h);
            out.append("'");
        },
        CspSource::InlineSpeculationRules => out.append("'inline-speculation-rules'"),
        CspSource::HttpsScheme => out.append("https:"),
        CspSource::Data => out.append("data:"),
        CspSource::Blob => out.append("blob:"),
    }
}

fn append_entry(out: &mut String, e: &CspEntry)
    ensures
        final(out)@ == old(out)@ + entry_text(e@),
{
    let ghost start = out@;
    out.append(directive_name_str(e.directive));
    let mut k: usize = 0;
    assert(e.sources@.take(0) =~= Seq::<CspSource>::empty());
    while k < e.sources.len()
        invariant
            k <= e.sources@.len(),
            out@ == start + directive_name(e.directive) + sources_text(e.sources@.take(k as int)),
        decreases e.sources@.len() - k,
    {
        out.append(" ");
        append_source(out, e.sources[k]);
        assert(e.sources@.take(k + 1).drop_last() =~= e.sources@.take(k as int));
        k = k + 1;
    }
    assert(e.sources@.take(e.sources@.len() as int) =~= e.sources@);
}

impl CspPolicy {
    /// The policy as the value of a `Content-Security-Policy` header.
    pub fn header_value(&self) -> (r: String)
        ensures
            r@ == policy_text(self@),
    {
        let mut out = String::new();
        let mut k: usize = 0;
        while k < self.entries.len()
            invariant
                k <= self.entries@.len(),
                out@ == policy_text(self@.take(k as int)),
            decreases self.entries@.len() - k,
        {
            let ghost before = out@;
            if k > 0 {
                out.append("; ");
            }
            append_entry(&mut out, &self.entries[k]);
            proof {
                let t = self@.take(k + 1);
                assert(t.drop_last() =~= self@.take(k as int));
                assert(t.last() == self.entries@[k as int]@);
                if k == 0 {
                    assert(before =~= Seq::<char>::empty());
                    assert(out@ =~= entry_text(t[0]));
                }
            }
            k = k + 1;
        }
        assert(self@.take(self@.len() as int) =~= self@);
        out
    }
}

/// The policy of the service-worker script: it may fetch and import from
/// its own origin only.
pub open spec fn service_worker_policy() -> Seq<(CspDirective, Seq<CspSource>)> {
    seq![
        (CspDirective::DefaultSrc, seq![CspSource::SelfOrigin]),
        (CspDirective::ScriptSrc, seq![CspSource::SelfOrigin]),
        (CspDirective::ConnectSrc, seq![CspSource::SelfOrigin]),
        (CspDirective::ObjectSrc, seq![CspSource::NoSource]),
        (CspDirective::FrameAncestors, seq![CspSource::NoSource]),
    ]
}

/// The deny-all policy for responses that set none of their own.
pub open spec fn fallback_policy() -> Seq<(CspDirective, Seq<CspSource>)> {
    seq![
        (CspDirective::DefaultSrc, seq![CspSource::NoSource]),
        (CspDirective::FrameAncestors, seq![CspSource::NoSource]),
    ]
}

fn entry(directive: CspDirective, sources: Vec<CspSource>) -> (r: CspEntry)
    ensures
        r@ == (directive, sources@),
{
    CspEntry { directive, sources }
}

fn single(source: CspSource) -> (r: Vec<CspSource>)
    ensures
        r@ == seq![source],
{
    let r = vec![source];
    assert(r@ =~= seq![source]);
    r
}

/// The policy sent with the service-worker script.
pub fn service_worker_csp() -> (r: CspPolicy)
    ensures
        r@ == service_worker_policy(),
{
    let entries = vec![
        entry(CspDirective::DefaultSrc, single(CspSource::SelfOrigin)),
        entry(CspDirective::ScriptSrc, single(CspSource::SelfOrigin)),
        entry(CspDirective::ConnectSrc, single(CspSource::SelfOrigin)),
        entry(CspDirective::ObjectSrc, single(CspSource::NoSource)),
        entry(CspDirective::FrameAncestors, single(CspSource::NoSource)),
    ];
    let r = CspPolicy { entries };
    assert(r@ =~= service_worker_policy());
    r
}

/// The deny-all policy applied to responses that carry none of their own.
pub fn fallback_csp() -> (r: CspPolicy)
    ensures
        r@ == fallback_policy(),
{
    let entries = vec![
        entry(CspDirective::DefaultSrc, single(CspSource::NoSource)),
        entry(CspDirective::FrameAncestors, single(CspSource::NoSource)),
    ];
    let r = CspPolicy { entries };
    assert(r@ =~= fallback_policy());
    r
}

} // verus!
