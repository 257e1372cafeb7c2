use vstd::prelude::*;

verus! {

/// Position of an event in the log, assigned by the store.
#[derive(Clone, Copy, Debug, PartialEq, Eq, Structural)]
pub struct Ordinal(pub usize);

/// Caller-chosen category of an event; the store gives it no meaning.
#[derive(Clone, Copy, Debug, PartialEq, Eq, Structural)]
pub struct Tag(pub usize);

/// Follow-up record attached once to an existing event.
pub struct Answer {
    pub name: String,
    pub data: Vec<u8>,
}

/// Mathematical value of an [`Answer`].
pub ghost struct AnswerView {
    pub name: Seq<char>,
    pub data: Seq<u8>,
}

impl View for Answer {
    type V = AnswerView;

    open spec fn view(&self) -> AnswerView {
        AnswerView { name: self.name@, data: self.data@ }
    }
}

/// Mathematical value of an [`Event`].
pub ghost struct EventView {
    pub ordinal: nat,
    pub tag: nat,
    pub ext: bool,
    pub name: Seq<char>,
    pub data: Seq<u8>,
    pub answer: Option<AnswerView>,
}

/// A record of the log, as stored and as returned by a scan.
pub struct Event {
    ordinal: Ordinal,
    tag: Tag,
    ext: bool,
    name: String,
    data: Vec<u8>,
    answer: Option<Answer>,
}

pub open spec fn answer_view(a: Option<Answer>) -> Option<AnswerView> {
    match a {
        Some(x) => Some(x@),
        None => None,
    }
}

impl View for Event {
    type V = EventView;

    closed spec fn view(&self) -> EventView {
        EventView {
            ordinal: self.ordinal.0 as nat,
            tag: self.tag.0 as nat,
            ext: self.ext,
            name: self.name@,
            data: self.data@,
            answer: answer_view(self.answer),
        }
    }
}

/// An event as handed to the store, before it has an ordinal.
pub struct NewEvent {
    pub tag: Tag,
    pub external: bool,
    pub name: String,
    pub data: Vec<u8>,
}

/// An event as a client submits it: the author's name is not yet known.
pub struct NewHttpEvent {
    pub tag: Tag,
    pub external: bool,
    pub data: Vec<u8>,
}

pub(crate) fn copy_bytes(v: &Vec<u8>) -> (r: Vec<u8>)
    ensures
        r@ == v@,
{
    let r = v.clone();
    assert(r@ =~= v@);
    r
}

impl NewHttpEvent {
    /// Attributes the submitted event to the identity `name`.
    pub fn name(self, name: String) -> (r: NewEvent)
        ensures
            r.tag == self.tag,
            r.external == self.external,
            r.name@ == name@,
            r.data@ == self.data@,
    {
        NewEvent { tag: self.tag, external: self.external, name, data: self.data }
    }
}

impl Answer {
    /// A field-by-field copy.
    pub fn copy(&self) -> (r: Answer)
        ensures
            r@ == self@,
    {
        Answer { name: self.name.clone(), data: copy_bytes(&self.data) }
    }
}

impl Event {
    /// A new event, not yet in any log.
    pub fn fresh(tag: Tag, name: String, data: Vec<u8>, external: bool) -> (r: NewEvent)
        ensures
            r.tag == tag,
            r.external == external,
            r.name@ == name@,
            r.data@ == data@,
    {
        NewEvent { tag, external, name, data }
    }

    /// An event with every field given.
    pub fn from_values(
        ordinal: Ordinal,
        tag: Tag,
        external: bool,
        name: String,
        data: Vec<u8>,
        answer: Option<Answer>,
    ) -> (r: Self)
        ensures
            r@ == (EventView {
                ordinal: ordinal.0 as nat,
                tag: tag.0 as nat,
                ext: external,
                name: name@,
                data: data@,
                answer: answer_view(answer),
            }),
    {
        Self { ordinal, tag, ext: external, name, data, answer }
    }

    /// A field-by-field copy.
    pub fn copy(&self) -> (r: Event)
        ensures
            r@ == self@,
    {
        let answer = match &self.answer {
            Some(a) => Some(a.copy()),
            None => None,
        };
        Event {
            ordinal: self.ordinal,
            tag: self.tag,
            ext: self.ext,
            name: self.name.clone(),
            data: copy_bytes(&self.data),
            answer,
        }
    }

    /// The same event with `answer` in place of its current one.
    pub fn with_answer(self, answer: Answer) -> (r: Event)
        ensures
            r@ == (EventView { answer: Some(answer@), ..self@ }),
    {
        Event { answer: Some(answer), ..self }
    }

    pub fn ordinal(&self) -> (r: Ordinal)
        ensures
            r.0 == self@.ordinal,
    {
        self.ordinal
    }

    pub fn tag(&self) -> (r: Tag)
        ensures
            r.0 == self@.tag,
    {
        self.tag
    }

    pub fn external(&self) -> (r: bool)
        ensures
            r == self@.ext,
    {
        self.ext
    }

    pub fn name(&self) -> (r: &String)
        ensures
            r@ == self@.name,
    {
        &self.name
    }

    pub fn data(&self) -> (r: &Vec<u8>)
        ensures
            r@ == self@.data,
    {
        &self.data
    }

    pub fn answer(&self) -> (r: Option<&Answer>)
        ensures
            match r {
                Some(a) => self@.answer == Some(a@),
                None => self@.answer.is_none(),
            },
    {
        match &self.answer {
            Some(a) => Some(a),
            None => None,
        }
    }
}

} // verus!
