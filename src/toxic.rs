use vstd::prelude::*;

verus! {

/// Toxicity is kept in millionths: `TOXICITY_SCALE` stands for a toxic that
/// applies to all traffic.
pub const TOXICITY_SCALE: u32 = 1_000_000;

/// One type-specific setting of a toxic, such as its latency.
#[derive(Debug)]
pub struct Attribute {
    pub key: String,
    pub value: u32,
}

/// The deterministic name of a toxic: `<type>_<stream>`. Attaching the same
/// type on the same stream again replaces the toxic instead of adding one.
pub open spec fn toxic_name(kind: Seq<char>, stream: Seq<char>) -> Seq<char> {
    kind + "_"@ + stream
}

/// No two attributes share a key.
pub open spec fn keys_unique(attrs: Seq<Attribute>) -> bool {
    forall|i: int, j: int|
        0 <= i < attrs.len() && 0 <= j < attrs.len() && i != j ==> #[trigger] attrs[i].key@
            != #[trigger] attrs[j].key@
}

/// The value stored under `key`, if any.
pub open spec fn attribute_value(attrs: Seq<Attribute>, key: Seq<char>) -> Option<u32>
    decreases attrs.len(),
{
    if attrs.len() == 0 {
        None
    } else if attrs.last().key@ == key {
        Some(attrs.last().value)
    } else {
        attribute_value(attrs.drop_last(), key)
    }
}

/// A fault-injection rule attached to one stream of a proxy.
#[derive(Debug)]
pub struct Toxic {
    pub name: String,
    /// The fault behaviour, such as `latency`.
    pub kind: String,
    /// The traffic direction: `upstream` or `downstream`.
    pub stream: String,
    /// Probability that the toxic applies, in millionths.
    pub toxicity: u32,
    pub attributes: Vec<Attribute>,
    /// The proxy this toxic was listed from, when known.
    pub proxy_name: Option<String>,
}

impl Toxic {
    /// A toxic whose name follows its type and stream and whose fields are
    /// in range.
    pub open spec fn wf(&self) -> bool {
        &&& self.name@ == toxic_name(self.kind@, self.stream@)
        &&& self.toxicity <= TOXICITY_SCALE
        &&& keys_unique(self.attributes@)
    }

    pub fn new(kind: String, stream: String, toxicity: u32, attributes: Vec<Attribute>) -> (r:
        Toxic)
        requires
            toxicity <= TOXICITY_SCALE,
            keys_unique(attributes@),
        ensures
            r.wf(),
            r.kind@ == kind@,
            r.stream@ == stream@,
            r.toxicity == toxicity,
            r.attributes@ == attributes@,
            r.proxy_name is None,
    {
        let mut name = kind.clone();
        name.append("_");
        name.append(stream.as_str());
        Toxic { name, kind, stream, toxicity, attributes, proxy_name: None }
    }

    /// The same toxic, recorded as attached to `proxy_name`.
    pub fn with_proxy(self, proxy_name: String) -> (r: Toxic)
        ensures
            r.name == self.name,
            r.kind == self.kind,
            r.stream == self.stream,
            r.toxicity == self.toxicity,
            r.attributes == self.attributes,
            r.proxy_name == Some(proxy_name),
    {
        Toxic { proxy_name: Some(proxy_name), ..self }
    }

    /// A latency toxic: delays traffic on `stream` by `latency` milliseconds,
    /// give or take `jitter`.
    pub fn latency(stream: String, latency: u32, jitter: u32, toxicity: u32) -> (r: Toxic)
        requires
            toxicity <= TOXICITY_SCALE,
        ensures
            r.wf(),
            r.kind@ == "latency"@,
            r.name@ == toxic_name("latency"@, stream@),
            r.stream@ == stream@,
            r.toxicity == toxicity,
            r.attributes@.len() == 2,
            r.attributes@[0].key@ == "latency"@,
            r.attributes@[0].value == latency,
            r.attributes@[1].key@ == "jitter"@,
            r.attributes@[1].value == jitter,
            attribute_value(r.attributes@, "latency"@) == Some(latency),
            attribute_value(r.attributes@, "jitter"@) == Some(jitter),
            r.proxy_name is None,
    {
        let mut attributes: Vec<Attribute> = Vec::new();
        attributes.push(Attribute { key: String::from_str("latency"), value: latency });
        attributes.push(Attribute { key: String::from_str("jitter"), value: jitter });
        proof {
            reveal_strlit("latency");
            reveal_strlit("jitter");
            assert(attributes@[0].key@[0] != attributes@[1].key@[0]);
            assert(attributes@.drop_last() =~= seq![attributes@[0]]);
            assert(attributes@.drop_last().drop_last() =~= Seq::<Attribute>::empty());
            assert(attributes@.last().key@ != "latency"@);
            assert(attribute_value(attributes@.drop_last(), "latency"@) == Some(latency));
            assert(attribute_value(attributes@, "latency"@) == Some(latency));
        }
        Toxic::new(String::from_str("latency"), stream, toxicity, attributes)
    }

    /// The value of the attribute named `key`, if the toxic has one.
    pub fn attribute(&self, key: &String) -> (r: Option<u32>)
        ensures
            r == attribute_value(self.attributes@, key@),
    {
        let mut i: usize = self.attributes.len();
        assert(self.attributes@.subrange(0, i as int) =~= self.attributes@);
        while i > 0
            invariant
                i <= self.attributes@.len(),
                attribute_value(self.attributes@, key@) == attribute_value(
                    self.attributes@.subrange(0, i as int),
                    key@,
                ),
            decreases i,
        {
            let a = &self.attributes[i - 1];
            assert(self.attributes@.subrange(0, i as int).drop_last() =~= self.attributes@.subrange(
                0,
                i - 1,
            ));
            if a.key == *key {
                return Some(a.value);
            }
            i = i - 1;
        }
        None
    }
}

} // verus!
