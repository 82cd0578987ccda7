use vstd::prelude::*;

use crate::event::{tags_of, NostrEvent};

verus! {

pub const KIND_USER_METADATA: u64 = 0;
pub const KIND_NOTE: u64 = 1;
pub const KIND_REACTION: u64 = 7;
pub const KIND_ZAP_REQUEST: u64 = 9734;
pub const KIND_ZAP_RECEIPT: u64 = 9735;
pub const KIND_LONG_FORM: u64 = 30023;
pub const KIND_LONG_FORM_DRAFT: u64 = 30024;

/// The storage bucket an event is filed under.
#[derive(Clone, Copy, Debug, PartialEq, Eq, Structural)]
pub enum Category {
    UserMetadata,
    Note,
    Reply,
    Reaction,
    Zap,
    LongForm,
}

/// A tag whose name element is `"e"`: a reference to another event.
pub open spec fn is_e_tag(t: Seq<Seq<char>>) -> bool {
    t.len() >= 1 && t[0] == seq!['e']
}

/// The reference carried by the first `"e"` tag at or after position `i`:
/// its second element, or nothing when that tag has none.
pub open spec fn e_reference_from(tags: Seq<Seq<Seq<char>>>, i: nat) -> Option<Seq<char>>
    decreases tags.len() - i,
{
    if i >= tags.len() {
        None
    } else if is_e_tag(tags[i as int]) {
        if tags[i as int].len() >= 2 {
            Some(tags[i as int][1])
        } else {
            None
        }
    } else {
        e_reference_from(tags, i + 1)
    }
}

/// The reference of the first `"e"` tag of a tag list.
pub open spec fn e_reference(tags: Seq<Seq<Seq<char>>>) -> Option<Seq<char>> {
    e_reference_from(tags, 0)
}

/// The category and reference an event of `kind` with `tags` is filed under,
/// or `None` when it is dropped.
pub open spec fn classification_of(kind: u64, tags: Seq<Seq<Seq<char>>>) -> Option<
    (Category, Option<Seq<char>>),
> {
    if kind == KIND_USER_METADATA {
        Some((Category::UserMetadata, None))
    } else if kind == KIND_NOTE {
        match e_reference(tags) {
            Some(r) => Some((Category::Reply, Some(r))),
            None => Some((Category::Note, None::<Seq<char>>)),
        }
    } else if kind == KIND_REACTION {
        match e_reference(tags) {
            Some(r) => Some((Category::Reaction, Some(r))),
            None => None,
        }
    } else if kind == KIND_ZAP_REQUEST || kind == KIND_ZAP_RECEIPT {
        Some((Category::Zap, e_reference(tags)))
    } else if kind == KIND_LONG_FORM || kind == KIND_LONG_FORM_DRAFT {
        Some((Category::LongForm, None))
    } else {
        None
    }
}

/// The result of classifying an event that is kept.
pub struct Classification {
    pub category: Category,
    pub reference: Option<String>,
}

impl View for Classification {
    type V = (Category, Option<Seq<char>>);

    open spec fn view(&self) -> (Category, Option<Seq<char>>) {
        (self.category, self.reference.deep_view())
    }
}

/// The optional classification as a value of the model.
pub open spec fn classification_view(c: Option<Classification>) -> Option<
    (Category, Option<Seq<char>>),
> {
    match c {
        Some(c) => Some(c@),
        None => None,
    }
}

/// The folder name a category is stored and served under.
pub open spec fn label_of(c: Category) -> Seq<char> {
    match c {
        Category::UserMetadata => "users"@,
        Category::Note => "notes"@,
        Category::Reply => "replies"@,
        Category::Reaction => "reactions"@,
        Category::Zap => "zaps"@,
        Category::LongForm => "long"@,
    }
}

/// Distinct categories have distinct folder names.
proof fn lemma_labels_distinct(c1: Category, c2: Category)
    ensures
        label_of(c1) == label_of(c2) ==> c1 == c2,
{
    reveal_strlit("users");
    reveal_strlit("notes");
    reveal_strlit("replies");
    reveal_strlit("reactions");
    reveal_strlit("zaps");
    reveal_strlit("long");
    if label_of(c1) == label_of(c2) {
        assert(label_of(c1).len() == label_of(c2).len());
        assert(label_of(c1)[0] == label_of(c2)[0]);
    }
}

impl Category {
    /// The folder name of this category.
    pub fn label(self) -> (r: &'static str)
        ensures
            r@ == label_of(self),
    {
        match self {
            Category::UserMetadata => "users",
            Category::Note => "notes",
            Category::Reply => "replies",
            Category::Reaction => "reactions",
            Category::Zap => "zaps",
            Category::LongForm => "long",
        }
    }

    /// The category whose folder name is `name`, if any.
    pub fn from_label(name: &str) -> (r: Option<Category>)
        ensures
            r matches Some(c) ==> label_of(c) == name@,
            r is None ==> forall|c: Category| label_of(c) != name@,
    {
        let name = String::from_str(name);
        if name == String::from_str("users") {
            Some(Category::UserMetadata)
        } else if name == String::from_str("notes") {
            Some(Category::Note)
        } else if name == String::from_str("replies") {
            Some(Category::Reply)
        } else if name == String::from_str("reactions") {
            Some(Category::Reaction)
        } else if name == String::from_str("zaps") {
            Some(Category::Zap)
        } else if name == String::from_str("long") {
            Some(Category::LongForm)
        } else {
            None
        }
    }

    /// The listing category whose folder name is `name`: replies, reactions
    /// and zaps are listed by the event they refer to; no other folder is.
    pub fn listing_from_label(name: &str) -> (r: Option<Category>)
        ensures
            r matches Some(c) ==> label_of(c) == name@ && c.spec_is_listing(),
            r is None ==> forall|c: Category| label_of(c) == name@ ==> !c.spec_is_listing(),
    {
        proof {
            assert forall|c1: Category, c2: Category| label_of(c1) == label_of(c2) implies c1
                == c2 by {
                lemma_labels_distinct(c1, c2);
            }
        }
        match Category::from_label(name) {
            Some(c) => if c.is_listing() {
                Some(c)
            } else {
                None
            },
            None => None,
        }
    }

    /// Records of this category are looked up by author rather than by identifier.
    pub fn keyed_by_author(self) -> (r: bool)
        ensures
            r == (self == Category::UserMetadata),
    {
        match self {
            Category::UserMetadata => true,
            _ => false,
        }
    }

    /// Categories whose records are listed by the event they refer to.
    pub open spec fn spec_is_listing(self) -> bool {
        self == Category::Reply || self == Category::Reaction || self == Category::Zap
    }

    #[verifier::when_used_as_spec(spec_is_listing)]
    pub fn is_listing(self) -> (r: bool)
        ensures
            r == self.spec_is_listing(),
    {
        match self {
            Category::Reply | Category::Reaction | Category::Zap => true,
            _ => false,
        }
    }

    /// Categories whose events are primary entities: seeing one widens coverage.
    pub open spec fn spec_is_primary(self) -> bool {
        self == Category::Note || self == Category::LongForm
    }

    #[verifier::when_used_as_spec(spec_is_primary)]
    pub fn is_primary(self) -> (r: bool)
        ensures
            r == self.spec_is_primary(),
    {
        match self {
            Category::Note | Category::LongForm => true,
            _ => false,
        }
    }
}

/// Returns the reference of the first `"e"` tag, if that tag carries one.
pub fn find_e_reference(tags: &Vec<Vec<String>>) -> (r: Option<String>)
    ensures
        r.deep_view() == e_reference(tags.deep_view()),
{
    let e = String::from_str("e");
    proof {
        reveal_strlit("e");
    }
    let mut i: usize = 0;
    while i < tags.len()
        invariant
            0 <= i <= tags.len(),
            e@ == seq!['e'],
            e_reference(tags.deep_view()) == e_reference_from(tags.deep_view(), i as nat),
        decreases tags.len() - i,
    {
        let tag = &tags[i];
        assert(tags.deep_view()[i as int] == tag.deep_view());
        if tag.len() >= 1 && tag[0] == e {
            assert(tag.deep_view()[0] == tag[0]@);
            if tag.len() >= 2 {
                assert(tag.deep_view()[1] == tag[1]@);
                return Some(tag[1].clone());
            } else {
                return None;
            }
        }
        assert(tag.len() >= 1 ==> tag.deep_view()[0] == tag[0]@);
        i += 1;
    }
    None
}

/// Files an event under its category and reference, or drops it (`None`).
pub fn classify(event: &NostrEvent) -> (r: Option<Classification>)
    ensures
        classification_view(r) == classification_of(event.kind, tags_of(*event)),
{
    let kind = event.kind;
    if kind == KIND_USER_METADATA {
        Some(Classification { category: Category::UserMetadata, reference: None })
    } else if kind == KIND_NOTE {
        match find_e_reference(&event.tags) {
            Some(r) => Some(Classification { category: Category::Reply, reference: Some(r) }),
            None => Some(Classification { category: Category::Note, reference: None }),
        }
    } else if kind == KIND_REACTION {
        match find_e_reference(&event.tags) {
            Some(r) => Some(Classification { category: Category::Reaction, reference: Some(r) }),
            None => None,
        }
    } else if kind == KIND_ZAP_REQUEST || kind == KIND_ZAP_RECEIPT {
        let reference = find_e_reference(&event.tags);
        Some(Classification { category: Category::Zap, reference })
    } else if kind == KIND_LONG_FORM || kind == KIND_LONG_FORM_DRAFT {
        Some(Classification { category: Category::LongForm, reference: None })
    } else {
        None
    }
}

/// Position `i` holds the first `"e"` tag of the list.
pub open spec fn first_e_tag_at(tags: Seq<Seq<Seq<char>>>, i: int) -> bool {
    &&& 0 <= i < tags.len()
    &&& is_e_tag(tags[i])
    &&& forall|j: int| 0 <= j < i ==> !is_e_tag(#[trigger] tags[j])
}

/// The first `"e"` tag of the list reads `["e", x, ...]`.
pub open spec fn carries_reference(tags: Seq<Seq<Seq<char>>>, x: Seq<char>) -> bool {
    exists|i: int| first_e_tag_at(tags, i) && tags[i].len() >= 2 && #[trigger] tags[i][1] == x
}

/// Finds the first `"e"` tag at or after `k`, and what `e_reference_from` makes of it.
proof fn lemma_first_e_from(tags: Seq<Seq<Seq<char>>>, k: nat) -> (r: Option<int>)
    requires
        k <= tags.len(),
    ensures
        match r {
            Some(i) => {
                &&& k <= i < tags.len()
                &&& is_e_tag(tags[i])
                &&& forall|j: int| k <= j < i ==> !is_e_tag(#[trigger] tags[j])
                &&& e_reference_from(tags, k) == if tags[i].len() >= 2 {
                    Some(tags[i][1])
                } else {
                    None
                }
            },
            None => {
                &&& forall|j: int| k <= j < tags.len() ==> !is_e_tag(#[trigger] tags[j])
                &&& e_reference_from(tags, k) == None::<Seq<char>>
            },
        },
    decreases tags.len() - k,
{
    if k == tags.len() {
        None
    } else if is_e_tag(tags[k as int]) {
        Some(k as int)
    } else {
        lemma_first_e_from(tags, k + 1)
    }
}

/// What the reference of a tag list is, given where its first `"e"` tag stands.
proof fn lemma_first_e(tags: Seq<Seq<Seq<char>>>, i: int)
    requires
        first_e_tag_at(tags, i),
    ensures
        e_reference(tags) == if tags[i].len() >= 2 {
            Some(tags[i][1])
        } else {
            None
        },
{
    let r = lemma_first_e_from(tags, 0);
    match r {
        Some(k) => {
            if k < i {
                assert(!is_e_tag(tags[k]));
            } else if i < k {
                assert(!is_e_tag(tags[i]));
            }
        },
        None => {
            assert(!is_e_tag(tags[i]));
        },
    }
}

/// The reference of a tag list is `x` exactly when its first `"e"` tag carries `x`.
proof fn lemma_e_reference_iff(tags: Seq<Seq<Seq<char>>>, x: Seq<char>)
    ensures
        e_reference(tags) == Some(x) <==> carries_reference(tags, x),
{
    if carries_reference(tags, x) {
        let i = choose|i: int| first_e_tag_at(tags, i) && tags[i].len() >= 2 && #[trigger] tags[i][1] == x;
        lemma_first_e(tags, i);
    }
    if e_reference(tags) == Some(x) {
        let r = lemma_first_e_from(tags, 0);
        let i = r->Some_0;
        assert(first_e_tag_at(tags, i));
        assert(tags[i][1] == x);
    }
}

/// A note that carries a reference in its first `"e"` tag is a reply to that
/// event; a note without any `["e", x, ...]` tag is a plain note.
pub proof fn note_or_reply(e: NostrEvent, i: int)
    requires
        e.kind == KIND_NOTE,
    ensures
        first_e_tag_at(tags_of(e), i) && tags_of(e)[i].len() >= 2 ==> classification_of(
            e.kind,
            tags_of(e),
        ) == Some((Category::Reply, Some(tags_of(e)[i][1]))),
        (forall|j: int|
            0 <= j < tags_of(e).len() && is_e_tag(#[trigger] tags_of(e)[j]) ==> tags_of(e)[j].len()
                < 2) ==> classification_of(e.kind, tags_of(e)) == Some((Category::Note, None::<Seq<char>>)),
{
    let tags = tags_of(e);
    if first_e_tag_at(tags, i) {
        lemma_first_e(tags, i);
    }
    let r = lemma_first_e_from(tags, 0);
    if r is Some {
        assert(is_e_tag(tags[r->Some_0]));
    }
}

/// A reaction is kept, filed under its target, exactly when its first `"e"`
/// tag names a target; otherwise it is dropped.
pub proof fn reaction_needs_target(e: NostrEvent, x: Seq<char>)
    requires
        e.kind == KIND_REACTION,
    ensures
        classification_of(e.kind, tags_of(e)) == Some((Category::Reaction, Some(x)))
            <==> carries_reference(tags_of(e), x),
        classification_of(e.kind, tags_of(e)) is None <==> forall|y: Seq<char>|
            !carries_reference(tags_of(e), y),
        classification_of(e.kind, tags_of(e)) is None || classification_of(
            e.kind,
            tags_of(e),
        )->Some_0.0 == Category::Reaction,
{
    let tags = tags_of(e);
    lemma_e_reference_iff(tags, x);
    if classification_of(e.kind, tags) is None {
        assert forall|y: Seq<char>| !carries_reference(tags, y) by {
            lemma_e_reference_iff(tags, y);
        }
    } else {
        let y = e_reference(tags)->Some_0;
        lemma_e_reference_iff(tags, y);
    }
}

/// User metadata is filed as such whatever its tags.
pub proof fn metadata_ignores_tags(e: NostrEvent)
    requires
        e.kind == KIND_USER_METADATA,
    ensures
        classification_of(e.kind, tags_of(e)) == Some((Category::UserMetadata, None::<Seq<char>>)),
{
}

/// Long-form articles and drafts are filed as long-form, with no reference.
pub proof fn long_form_has_no_reference(e: NostrEvent)
    requires
        e.kind == KIND_LONG_FORM || e.kind == KIND_LONG_FORM_DRAFT,
    ensures
        classification_of(e.kind, tags_of(e)) == Some((Category::LongForm, None::<Seq<char>>)),
{
}

} // verus!
