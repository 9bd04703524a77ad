//! The XML event sink: a thin trusted rim around the xml crate's
//! indenting event writer, and verified builders for event lists.
//!
//! The tree walks of the ONIX dialects build a flat list of events —
//! element opens with their attributes, character data, element closes —
//! and hand the whole list to [`render_nodes`].  What the emitter makes
//! of a given event list is named by [`spec_xml_doc`]; that the opens
//! and closes pair up is visible in the builders, which emit them
//! together.

use vstd::prelude::*;

use crate::errors::ThothError;
use crate::seq_util::lemma_map_values_push;

verus! {

/// One event of an XML document, as handed to the emitter.
pub enum XmlNode {
    /// Opens an element, with its attributes in writing order.
    Start { name: String, attrs: Vec<(String, String)> },
    /// Character data inside the innermost open element.
    Text { text: String },
    /// Closes the innermost open element.
    End,
}

/// The mathematical shape of one event.
#[verifier::ext_equal]
pub enum XmlEventView {
    Start { name: Seq<char>, attrs: Seq<(Seq<char>, Seq<char>)> },
    Text { text: Seq<char> },
    End,
}

impl View for XmlNode {
    type V = XmlEventView;

    open spec fn view(&self) -> XmlEventView {
        match self {
            XmlNode::Start { name, attrs } => XmlEventView::Start {
                name: name@,
                attrs: attrs@.map_values(|p: (String, String)| (p.0@, p.1@)),
            },
            XmlNode::Text { text } => XmlEventView::Text { text: text@ },
            XmlNode::End => XmlEventView::End,
        }
    }
}

/// The events of a node list, in order.
pub open spec fn views(nodes: Seq<XmlNode>) -> Seq<XmlEventView> {
    nodes.map_values(|n: XmlNode| n@)
}

/// An element open without attributes.
pub open spec fn ev_start(name: Seq<char>) -> XmlEventView {
    XmlEventView::Start { name, attrs: Seq::empty() }
}

/// An element open with attributes.
pub open spec fn ev_start_attrs(name: Seq<char>, attrs: Seq<(Seq<char>, Seq<char>)>) -> XmlEventView {
    XmlEventView::Start { name, attrs }
}

/// Character data.
pub open spec fn ev_text(text: Seq<char>) -> XmlEventView {
    XmlEventView::Text { text }
}

/// An element close.
pub open spec fn ev_end() -> XmlEventView {
    XmlEventView::End
}

/// How many elements the events leave open: each open counts one,
/// each close counts one back.
pub open spec fn spec_open_depth(events: Seq<XmlEventView>) -> int
    decreases events.len(),
{
    if events.len() == 0 {
        0
    } else {
        spec_open_depth(events.drop_last()) + (match events.last() {
            XmlEventView::Start { .. } => 1int,
            XmlEventView::End => -1int,
            XmlEventView::Text { .. } => 0int,
        })
    }
}

/// Every close in the list closes something: some element is open
/// wherever an `End` stands.
pub open spec fn spec_ends_closed(events: Seq<XmlEventView>) -> bool {
    forall|k: int|
        0 <= k < events.len() && (#[trigger] events[k]) is End ==> spec_open_depth(
            events.take(k),
        ) > 0
}

/// A well-formed fragment: every close closes something and the
/// events leave nothing open.
pub open spec fn spec_balanced(events: Seq<XmlEventView>) -> bool {
    spec_open_depth(events) == 0 && spec_ends_closed(events)
}

/// The open depth of two lists written in turn adds up.
pub proof fn lemma_depth_add(a: Seq<XmlEventView>, b: Seq<XmlEventView>)
    ensures
        spec_open_depth(a + b) == spec_open_depth(a) + spec_open_depth(b),
    decreases b.len(),
{
    if b.len() == 0 {
        assert(a + b =~= a);
    } else {
        lemma_depth_add(a, b.drop_last());
        assert((a + b).drop_last() =~= a + b.drop_last());
        assert((a + b).last() == b.last());
    }
}

/// Two well-formed fragments in a row form a well-formed fragment.
pub proof fn lemma_balanced_concat(a: Seq<XmlEventView>, b: Seq<XmlEventView>)
    requires
        spec_balanced(a),
        spec_balanced(b),
    ensures
        spec_balanced(a + b),
{
    lemma_depth_add(a, b);
    assert forall|k: int|
        0 <= k < (a + b).len() && (#[trigger] (a + b)[k]) is End implies spec_open_depth(
        (a + b).take(k),
    ) > 0 by {
        if k < a.len() {
            assert((a + b).take(k) =~= a.take(k));
            assert(a[k] is End);
        } else {
            assert((a + b).take(k) =~= a + b.take(k - a.len()));
            lemma_depth_add(a, b.take(k - a.len()));
            assert(b[k - a.len()] is End);
        }
    }
}

/// A well-formed fragment wrapped in one open and one close is a
/// well-formed fragment.
pub proof fn lemma_balanced_wrap(opening: XmlEventView, children: Seq<XmlEventView>)
    requires
        opening is Start,
        spec_balanced(children),
    ensures
        spec_balanced(seq![opening] + children + seq![ev_end()]),
{
    let w = seq![opening] + children + seq![ev_end()];
    reveal_with_fuel(spec_open_depth, 2);
    assert(spec_open_depth(seq![opening]) == 1) by {
        let s1 = seq![opening];
        assert(s1.drop_last() =~= Seq::<XmlEventView>::empty());
        assert(spec_open_depth(s1.drop_last()) == 0);
        assert(s1.last() == opening);
    }
    assert(spec_open_depth(seq![ev_end()]) == -1int) by {
        let s1 = seq![ev_end()];
        assert(s1.drop_last() =~= Seq::<XmlEventView>::empty());
        assert(spec_open_depth(s1.drop_last()) == 0);
        assert(s1.last() == ev_end());
    }
    lemma_depth_add(seq![opening], children);
    lemma_depth_add(seq![opening] + children, seq![ev_end()]);
    assert forall|k: int| 0 <= k < w.len() && (#[trigger] w[k]) is End implies spec_open_depth(
        w.take(k),
    ) > 0 by {
        if 1 <= k < 1 + children.len() {
            assert(w[k] == children[k - 1]);
            assert(w.take(k) =~= seq![opening] + children.take(k - 1));
            lemma_depth_add(seq![opening], children.take(k - 1));
            if children[k - 1] is End {
                assert(spec_open_depth(children.take(k - 1)) > 0);
            }
        } else if k == 1 + children.len() {
            assert(w.take(k) =~= seq![opening] + children);
        }
    }
}

/// A whole element over well-formed children is well formed.
pub proof fn lemma_balanced_elem(name: Seq<char>, children: Seq<XmlEventView>)
    requires
        spec_balanced(children),
    ensures
        spec_balanced(spec_elem(name, children)),
{
    lemma_balanced_wrap(ev_start(name), children);
}

/// A leaf element is well formed.
pub proof fn lemma_balanced_simple(name: Seq<char>, text: Seq<char>)
    ensures
        spec_balanced(spec_simple(name, text)),
{
    reveal_with_fuel(spec_open_depth, 2);
    assert(spec_balanced(seq![ev_text(text)])) by {
        let s1 = seq![ev_text(text)];
        assert(s1.drop_last() =~= Seq::<XmlEventView>::empty());
        assert(spec_open_depth(s1.drop_last()) == 0);
        assert(s1.last() == ev_text(text));
        assert(spec_open_depth(s1) == 0);
    }
    lemma_balanced_wrap(ev_start(name), seq![ev_text(text)]);
    assert(spec_simple(name, text) =~= seq![ev_start(name)] + seq![ev_text(text)] + seq![
        ev_end(),
    ]);
}

/// The empty fragment is well formed.
pub proof fn lemma_balanced_empty()
    ensures
        spec_balanced(Seq::<XmlEventView>::empty()),
{
}

/// Concatenation automation: two well-formed fragments in a row form
/// a well-formed fragment.
pub broadcast proof fn lemma_balanced_concat_auto(a: Seq<XmlEventView>, b: Seq<XmlEventView>)
    ensures
        spec_balanced(a) && spec_balanced(b) ==> #[trigger] spec_balanced(a + b),
{
    if spec_balanced(a) && spec_balanced(b) {
        lemma_balanced_concat(a, b);
    }
}

/// Leaf automation: a leaf element is well formed.
pub broadcast proof fn lemma_balanced_simple_auto(name: Seq<char>, text: Seq<char>)
    ensures
        #[trigger] spec_balanced(spec_simple(name, text)),
{
    lemma_balanced_simple(name, text);
}

/// Element automation: a whole element over well-formed children is
/// well formed.
pub broadcast proof fn lemma_balanced_elem_auto(name: Seq<char>, children: Seq<XmlEventView>)
    ensures
        spec_balanced(children) ==> #[trigger] spec_balanced(spec_elem(name, children)),
{
    if spec_balanced(children) {
        lemma_balanced_elem(name, children);
    }
}

/// Wrap automation: a well-formed fragment between one open and one
/// close is well formed.
pub broadcast proof fn lemma_balanced_wrap_auto(opening: XmlEventView, children: Seq<XmlEventView>)
    ensures
        opening is Start && spec_balanced(children) ==> #[trigger] spec_balanced(
            seq![opening] + children + seq![ev_end()],
        ),
{
    if opening is Start && spec_balanced(children) {
        lemma_balanced_wrap(opening, children);
    }
}

/// Text automation: a lone character event is well formed.
pub broadcast proof fn lemma_balanced_text_auto(text: Seq<char>)
    ensures
        #[trigger] spec_balanced(seq![ev_text(text)]),
{
    reveal_with_fuel(spec_open_depth, 2);
    let s1 = seq![ev_text(text)];
    assert(s1.drop_last() =~= Seq::<XmlEventView>::empty());
    assert(spec_open_depth(s1.drop_last()) == 0);
    assert(s1.last() == ev_text(text));
    assert(spec_open_depth(s1) == 0);
}

/// A whole element: open, children, close.
pub open spec fn spec_elem(name: Seq<char>, children: Seq<XmlEventView>) -> Seq<XmlEventView> {
    seq![ev_start(name)] + children + seq![ev_end()]
}

/// A leaf element holding only character data.
pub open spec fn spec_simple(name: Seq<char>, text: Seq<char>) -> Seq<XmlEventView> {
    seq![ev_start(name), ev_text(text), ev_end()]
}

/// Appends an element open without attributes.
pub fn push_start(out: &mut Vec<XmlNode>, name: &str)
    ensures
        views(final(out)@) == views(old(out)@).push(ev_start(name@)),
{
    let ghost before = out@;
    out.push(XmlNode::Start { name: name.to_owned(), attrs: Vec::new() });
    proof {
        lemma_map_values_push(before, |n: XmlNode| n@, out@.last());
        assert(out@.last()@ =~= ev_start(name@));
        assert(views(out@) =~= views(before).push(ev_start(name@)));
    }
}

/// Appends an element open carrying the given attributes.
pub fn push_start_attrs(out: &mut Vec<XmlNode>, name: &str, attrs: Vec<(String, String)>)
    ensures
        views(final(out)@) == views(old(out)@).push(
            ev_start_attrs(name@, attrs@.map_values(|p: (String, String)| (p.0@, p.1@))),
        ),
{
    let ghost before = out@;
    let ghost attr_views = attrs@.map_values(|p: (String, String)| (p.0@, p.1@));
    out.push(XmlNode::Start { name: name.to_owned(), attrs });
    proof {
        lemma_map_values_push(before, |n: XmlNode| n@, out@.last());
        assert(out@.last()@ =~= ev_start_attrs(name@, attr_views));
        assert(views(out@) =~= views(before).push(ev_start_attrs(name@, attr_views)));
    }
}

/// Appends character data.
pub fn push_text(out: &mut Vec<XmlNode>, text: &str)
    ensures
        views(final(out)@) == views(old(out)@).push(ev_text(text@)),
{
    let ghost before = out@;
    out.push(XmlNode::Text { text: text.to_owned() });
    proof {
        lemma_map_values_push(before, |n: XmlNode| n@, out@.last());
        assert(views(out@) =~= views(before).push(ev_text(text@)));
    }
}

/// Appends an element close.
pub fn push_end(out: &mut Vec<XmlNode>)
    ensures
        views(final(out)@) == views(old(out)@).push(ev_end()),
{
    let ghost before = out@;
    out.push(XmlNode::End);
    proof {
        lemma_map_values_push(before, |n: XmlNode| n@, out@.last());
        assert(views(out@) =~= views(before).push(ev_end()));
    }
}

/// Appends a leaf element holding only character data: its open, its
/// text and its close together, so no path can leave it unterminated.
pub fn push_simple(out: &mut Vec<XmlNode>, name: &str, text: &str)
    ensures
        views(final(out)@) == views(old(out)@) + spec_simple(name@, text@),
{
    push_start(out, name);
    push_text(out, text);
    push_end(out);
    proof {
        assert(views(out@) =~= views(old(out)@) + spec_simple(name@, text@));
    }
}

/// An in-memory event writer of the xml crate, indenting, writing the
/// document declaration. Its written events are modelled by
/// [`xml_written`]; its final text by [`spec_xml_doc`].
#[verifier::external_body]
pub struct XmlSink {
    inner: xml::writer::EventWriter<Vec<u8>>,
}

/// The events the sink has accepted, in order.
pub uninterp spec fn xml_written(w: XmlSink) -> Seq<XmlEventView>;

/// The text that the xml crate's emitter — indenting with two spaces,
/// opening with the document declaration — writes for an event list.
/// The emitter is deterministic, so the text is a function of the
/// events alone.
pub uninterp spec fn spec_xml_doc(events: Seq<XmlEventView>) -> Seq<char>;

impl XmlSink {
    /// Relies on xml's `EmitterConfig`: a fresh indenting writer over
    /// an empty buffer has accepted no event.
    #[verifier::external_body]
    pub(crate) fn new() -> (r: XmlSink)
        ensures
            xml_written(r) == Seq::<XmlEventView>::empty(),
    {
        XmlSink {
            inner: xml::writer::EmitterConfig::new().perform_indent(true).create_writer(
                Vec::new(),
            ),
        }
    }

    /// Relies on xml's `EventWriter::write` with a start-element
    /// event: the element is opened, with the attributes in the given
    /// order.  Writing into memory has no failure path, so the write
    /// always succeeds.
    #[verifier::external_body]
    pub(crate) fn write_start(&mut self, name: &str, attrs: &Vec<(String, String)>) -> (ok: bool)
        ensures
            ok == true,
            xml_written(*final(self)) == xml_written(*old(self)).push(
                XmlEventView::Start {
                    name: name@,
                    attrs: attrs@.map_values(|p: (String, String)| (p.0@, p.1@)),
                },
            ),
    {
        let mut builder = xml::writer::XmlEvent::start_element(name);
        for (k, v) in attrs.iter() {
            builder = builder.attr(k.as_str(), v.as_str());
        }
        self.inner.write(builder).is_ok()
    }

    /// Relies on xml's `EventWriter::write` with a characters event:
    /// writing into memory has no failure path, so the write always
    /// succeeds.
    #[verifier::external_body]
    pub(crate) fn write_text(&mut self, text: &str) -> (ok: bool)
        ensures
            ok == true,
            xml_written(*final(self)) == xml_written(*old(self)).push(
                XmlEventView::Text { text: text@ },
            ),
    {
        self.inner.write(xml::writer::XmlEvent::characters(text)).is_ok()
    }

    /// Relies on xml's `EventWriter::write` with an end-element event:
    /// with some element open the innermost one is closed; with none
    /// open the emitter refuses before writing anything, so the sink
    /// is unchanged.
    #[verifier::external_body]
    pub(crate) fn write_end(&mut self) -> (ok: bool)
        ensures
            ok == (spec_open_depth(xml_written(*old(self))) > 0),
            ok ==> xml_written(*final(self)) == xml_written(*old(self)).push(XmlEventView::End),
            !ok ==> xml_written(*final(self)) == xml_written(*old(self)),
    {
        self.inner.write(xml::writer::XmlEvent::end_element()).is_ok()
    }

    /// Relies on xml's `EventWriter::into_inner`: the buffer holds the
    /// emitter's text for exactly the accepted events, and the emitter
    /// writes UTF-8.
    #[verifier::external_body]
    pub(crate) fn finish(self) -> (r: String)
        ensures
            r@ == spec_xml_doc(xml_written(self)),
    {
        let buffer = self.inner.into_inner();
        String::from_utf8_lossy(&buffer).into_owned()
    }
}

/// Feeds a built event list to the xml crate's emitter and returns the
/// document text.  A list whose closes all close something renders
/// without fault; the dialects hand over only well-formed fragments.
pub fn render_nodes(nodes: &Vec<XmlNode>) -> (r: Result<String, ThothError>)
    ensures
        r matches Ok(s) ==> s@ == spec_xml_doc(views(nodes@)),
        spec_ends_closed(views(nodes@)) ==> r is Ok,
{
    let mut sink = XmlSink::new();
    let mut i: usize = 0;
    while i < nodes.len()
        invariant
            i <= nodes@.len(),
            xml_written(sink) == views(nodes@.subrange(0, i as int)),
        decreases nodes@.len() - i,
    {
        let ok = match &nodes[i] {
            XmlNode::Start { name, attrs } => sink.write_start(name.as_str(), attrs),
            XmlNode::Text { text } => sink.write_text(text.as_str()),
            XmlNode::End => sink.write_end(),
        };
        if !ok {
            proof {
                assert(nodes@[i as int]@ is End);
                assert(views(nodes@).take(i as int) =~= views(nodes@.subrange(0, i as int)));
                assert(views(nodes@)[i as int] is End);
                assert(!spec_ends_closed(views(nodes@)));
            }
            return Err(ThothError::InternalError(String::from_str("Could not write XML")));
        }
        proof {
            let pre = nodes@.subrange(0, i as int);
            let cur = nodes@.subrange(0, i + 1 as int);
            assert(cur =~= pre.push(nodes@[i as int]));
            lemma_map_values_push(pre, |n: XmlNode| n@, nodes@[i as int]);
        }
        i = i + 1;
    }
    proof {
        assert(nodes@.subrange(0, nodes@.len() as int) =~= nodes@);
    }
    Ok(sink.finish())
}

} // verus!
