//! Compact JSON text.
use vstd::prelude::*;
use crate::value::Text;

verus! {

broadcast use vstd::string::group_string_axioms;

/// The JSON string literal of some text, quotes and escapes included.
pub uninterp spec fn json_string(text: Text) -> Text;

/// `serde_json::to_string` on a string: the literal depends on the characters alone.
#[verifier::external_body]
fn string_literal(text: &str) -> (res: String)
    ensures
        res@ == json_string(text@),
{
    serde_json::to_string(text).expect("a string always has a JSON form")
}

/// A value with a JSON form.
pub trait ToJson: DeepView {
    /// The compact JSON text of a value.
    spec fn json(v: Self::V) -> Text;

    fn to_json(&self) -> (res: String)
        ensures
            res@ == Self::json(self.deep_view()),
    ;
}

/// The decimal digit of a number under ten.
pub open spec fn digit(n: nat) -> Text {
    if n == 0 {
        "0"@
    } else if n == 1 {
        "1"@
    } else if n == 2 {
        "2"@
    } else if n == 3 {
        "3"@
    } else if n == 4 {
        "4"@
    } else if n == 5 {
        "5"@
    } else if n == 6 {
        "6"@
    } else if n == 7 {
        "7"@
    } else if n == 8 {
        "8"@
    } else {
        "9"@
    }
}

fn digit_text(n: u64) -> (res: &'static str)
    requires
        n < 10,
    ensures
        res@ == digit(n as nat),
{
    if n == 0 {
        "0"
    } else if n == 1 {
        "1"
    } else if n == 2 {
        "2"
    } else if n == 3 {
        "3"
    } else if n == 4 {
        "4"
    } else if n == 5 {
        "5"
    } else if n == 6 {
        "6"
    } else if n == 7 {
        "7"
    } else if n == 8 {
        "8"
    } else {
        "9"
    }
}

/// A number in decimal, without leading zeros.
pub open spec fn decimal(n: nat) -> Text
    decreases n,
{
    if n < 10 {
        digit(n)
    } else {
        decimal(n / 10) + digit(n % 10)
    }
}

/// The decimal text of a number.
pub fn decimal_text(n: u64) -> (res: String)
    ensures
        res@ == decimal(n as nat),
    decreases n,
{
    if n < 10 {
        digit_text(n).to_string()
    } else {
        let mut res = decimal_text(n / 10);
        res.append(digit_text(n % 10));
        res
    }
}

impl ToJson for u64 {
    open spec fn json(v: u64) -> Text {
        decimal(v as nat)
    }

    fn to_json(&self) -> (res: String) {
        decimal_text(*self)
    }
}

impl ToJson for u32 {
    open spec fn json(v: u32) -> Text {
        decimal(v as nat)
    }

    fn to_json(&self) -> (res: String) {
        decimal_text(*self as u64)
    }
}

impl ToJson for i64 {
    open spec fn json(v: i64) -> Text {
        if v < 0 {
            "-"@ + decimal((-v) as nat)
        } else {
            decimal(v as nat)
        }
    }

    fn to_json(&self) -> (res: String) {
        if *self < 0 {
            let magnitude: i128 = -(*self as i128);
            let mut res = "-".to_string();
            res.append(decimal_text(magnitude as u64).as_str());
            res
        } else {
            decimal_text(*self as u64)
        }
    }
}

impl ToJson for bool {
    open spec fn json(v: bool) -> Text {
        if v {
            "true"@
        } else {
            "false"@
        }
    }

    fn to_json(&self) -> (res: String) {
        if *self {
            "true".to_string()
        } else {
            "false".to_string()
        }
    }
}

impl ToJson for str {
    open spec fn json(v: Text) -> Text {
        json_string(v)
    }

    fn to_json(&self) -> (res: String) {
        string_literal(self)
    }
}

impl ToJson for String {
    open spec fn json(v: Text) -> Text {
        json_string(v)
    }

    fn to_json(&self) -> (res: String) {
        string_literal(self.as_str())
    }
}

impl<'a, T: ToJson + ?Sized> ToJson for &'a T {
    open spec fn json(v: T::V) -> Text {
        T::json(v)
    }

    fn to_json(&self) -> (res: String) {
        (**self).to_json()
    }
}

impl<T: ToJson> ToJson for Option<T> {
    open spec fn json(v: Option<T::V>) -> Text {
        match v {
            Some(value) => T::json(value),
            None => "null"@,
        }
    }

    fn to_json(&self) -> (res: String) {
        match self {
            Some(value) => value.to_json(),
            None => "null".to_string(),
        }
    }
}

/// Texts with a comma between each and the next.
pub open spec fn listed(texts: Seq<Text>) -> Text
    decreases texts.len(),
{
    if texts.len() == 0 {
        Seq::empty()
    } else if texts.len() == 1 {
        texts[0]
    } else {
        listed(texts.drop_last()) + ","@ + texts.last()
    }
}

/// A JSON array of texts that are JSON already.
pub open spec fn array(texts: Seq<Text>) -> Text {
    "["@ + listed(texts) + "]"@
}

/// The members of an object: each name, quoted, with its JSON text.
pub open spec fn members(fields: Seq<(Text, Text)>) -> Seq<Text> {
    fields.map_values(|field: (Text, Text)| "\""@ + field.0 + "\":"@ + field.1)
}

/// A JSON object whose names need no escape.
pub open spec fn object(fields: Seq<(Text, Text)>) -> Text {
    "{"@ + listed(members(fields)) + "}"@
}

/// Puts texts together with commas between them.
pub struct ListWriter {
    out: String,
    any: bool,
    texts: Ghost<Seq<Text>>,
}

impl ListWriter {
    pub closed spec fn texts(self) -> Seq<Text> {
        self.texts@
    }

    pub closed spec fn wf(self) -> bool {
        self.out@ == listed(self.texts@) && self.any == (self.texts@.len() > 0)
    }

    pub fn new() -> (res: ListWriter)
        ensures
            res.wf(),
            res.texts() == Seq::<Text>::empty(),
    {
        ListWriter { out: String::new(), any: false, texts: Ghost(Seq::empty()) }
    }

    pub fn item(&mut self, text: &str)
        requires
            old(self).wf(),
        ensures
            final(self).wf(),
            final(self).texts() == old(self).texts().push(text@),
    {
        if self.any {
            self.out.append(",");
        }
        self.out.append(text);
        self.any = true;
        proof {
            let before = old(self).texts@;
            let after = before.push(text@);
            assert(after.drop_last() =~= before);
            assert(old(self).out@ + text@ =~= text@ || before.len() > 0);
            self.texts@ = after;
        }
    }

    /// The texts between an opening and a closing bracket.
    pub fn finish(self, open: &str, close: &str) -> (res: String)
        requires
            self.wf(),
        ensures
            res@ == open@ + listed(self.texts()) + close@,
    {
        let mut res = open.to_string();
        res.append(self.out.as_str());
        res.append(close);
        res
    }
}

/// The JSON texts of a list of values.
pub open spec fn json_items<T: ToJson>(values: Seq<T::V>) -> Seq<Text> {
    values.map_values(|value: T::V| T::json(value))
}

/// The JSON array of a list of values.
pub fn array_text<T: ToJson>(values: &[T]) -> (res: String)
    ensures
        res@ == array(json_items::<T>(values.deep_view())),
{
    let mut out = ListWriter::new();
    let mut i: usize = 0;
    let ghost all = json_items::<T>(values.deep_view());
    assert(all.take(0) =~= Seq::<Text>::empty());
    while i < values.len()
        invariant
            i <= values.len(),
            all == json_items::<T>(values.deep_view()),
            out.wf(),
            out.texts() == all.take(i as int),
        decreases values.len() - i,
    {
        let text = values[i].to_json();
        out.item(text.as_str());
        assert(all.take(i + 1) =~= all.take(i as int).push(all[i as int]));
        i += 1;
    }
    assert(all.take(i as int) =~= all);
    out.finish("[", "]")
}

impl<T: ToJson> ToJson for Vec<T> {
    open spec fn json(v: Seq<T::V>) -> Text {
        array(json_items::<T>(v))
    }

    fn to_json(&self) -> (res: String) {
        array_text(self.as_slice())
    }
}

impl<T: ToJson> ToJson for [T] {
    open spec fn json(v: Seq<T::V>) -> Text {
        array(json_items::<T>(v))
    }

    fn to_json(&self) -> (res: String) {
        array_text(self)
    }
}

impl<A: ToJson, B: ToJson> ToJson for (A, B) {
    open spec fn json(v: (A::V, B::V)) -> Text {
        array(
            Seq::empty()
                .push(A::json(v.0))
                .push(B::json(v.1))
        )
    }

    fn to_json(&self) -> (res: String) {
        let mut out = ListWriter::new();
        out.item(self.0.to_json().as_str());
        out.item(self.1.to_json().as_str());
        out.finish("[", "]")
    }
}

impl<A: ToJson, B: ToJson, C: ToJson> ToJson for (A, B, C) {
    open spec fn json(v: (A::V, B::V, C::V)) -> Text {
        array(
            Seq::empty()
                .push(A::json(v.0))
                .push(B::json(v.1))
                .push(C::json(v.2))
        )
    }

    fn to_json(&self) -> (res: String) {
        let mut out = ListWriter::new();
        out.item(self.0.to_json().as_str());
        out.item(self.1.to_json().as_str());
        out.item(self.2.to_json().as_str());
        out.finish("[", "]")
    }
}

impl<A: ToJson, B: ToJson, C: ToJson, D: ToJson> ToJson for (A, B, C, D) {
    open spec fn json(v: (A::V, B::V, C::V, D::V)) -> Text {
        array(
            Seq::empty()
                .push(A::json(v.0))
                .push(B::json(v.1))
                .push(C::json(v.2))
                .push(D::json(v.3))
        )
    }

    fn to_json(&self) -> (res: String) {
        let mut out = ListWriter::new();
        out.item(self.0.to_json().as_str());
        out.item(self.1.to_json().as_str());
        out.item(self.2.to_json().as_str());
        out.item(self.3.to_json().as_str());
        out.finish("[", "]")
    }
}

impl<A: ToJson, B: ToJson, C: ToJson, D: ToJson, E: ToJson> ToJson for (A, B, C, D, E) {
    open spec fn json(v: (A::V, B::V, C::V, D::V, E::V)) -> Text {
        array(
            Seq::empty()
                .push(A::json(v.0))
                .push(B::json(v.1))
                .push(C::json(v.2))
                .push(D::json(v.3))
                .push(E::json(v.4))
        )
    }

    fn to_json(&self) -> (res: String) {
        let mut out = ListWriter::new();
        out.item(self.0.to_json().as_str());
        out.item(self.1.to_json().as_str());
        out.item(self.2.to_json().as_str());
        out.item(self.3.to_json().as_str());
        out.item(self.4.to_json().as_str());
        out.finish("[", "]")
    }
}

impl<A: ToJson, B: ToJson, C: ToJson, D: ToJson, E: ToJson, F: ToJson> ToJson for (A, B, C, D, E, F) {
    open spec fn json(v: (A::V, B::V, C::V, D::V, E::V, F::V)) -> Text {
        array(
            Seq::empty()
                .push(A::json(v.0))
                .push(B::json(v.1))
                .push(C::json(v.2))
                .push(D::json(v.3))
                .push(E::json(v.4))
                .push(F::json(v.5))
        )
    }

    fn to_json(&self) -> (res: String) {
        let mut out = ListWriter::new();
        out.item(self.0.to_json().as_str());
        out.item(self.1.to_json().as_str());
        out.item(self.2.to_json().as_str());
        out.item(self.3.to_json().as_str());
        out.item(self.4.to_json().as_str());
        out.item(self.5.to_json().as_str());
        out.finish("[", "]")
    }
}

impl<A: ToJson, B: ToJson, C: ToJson, D: ToJson, E: ToJson, F: ToJson, G: ToJson> ToJson for (A, B, C, D, E, F, G) {
    open spec fn json(v: (A::V, B::V, C::V, D::V, E::V, F::V, G::V)) -> Text {
        array(
            Seq::empty()
                .push(A::json(v.0))
                .push(B::json(v.1))
                .push(C::json(v.2))
                .push(D::json(v.3))
                .push(E::json(v.4))
                .push(F::json(v.5))
                .push(G::json(v.6))
        )
    }

    fn to_json(&self) -> (res: String) {
        let mut out = ListWriter::new();
        out.item(self.0.to_json().as_str());
        out.item(self.1.to_json().as_str());
        out.item(self.2.to_json().as_str());
        out.item(self.3.to_json().as_str());
        out.item(self.4.to_json().as_str());
        out.item(self.5.to_json().as_str());
        out.item(self.6.to_json().as_str());
        out.finish("[", "]")
    }
}

/// Writes one JSON object, member by member.
pub struct ObjectWriter {
    list: ListWriter,
    fields: Ghost<Seq<(Text, Text)>>,
}

impl ObjectWriter {
    #[verifier::type_invariant]
    spec fn wf(self) -> bool {
        self.list.wf() && self.list.texts() == members(self.fields@)
    }

    /// The members written so far.
    pub closed spec fn fields(self) -> Seq<(Text, Text)> {
        self.fields@
    }

    pub fn new() -> (res: ObjectWriter)
        ensures
            res.fields() == Seq::<(Text, Text)>::empty(),
    {
        let list = ListWriter::new();
        let ghost none = Seq::<(Text, Text)>::empty();
        assert(members(none) =~= Seq::<Text>::empty());
        ObjectWriter { list, fields: Ghost(none) }
    }

    pub fn with(self, name: &str, text: String) -> (res: ObjectWriter)
        ensures
            res.fields() == self.fields().push((name@, text@)),
    {
        proof {
            use_type_invariant(&self);
        }
        let ObjectWriter { mut list, fields } = self;
        let mut member = "\"".to_string();
        member.append(name);
        member.append("\":");
        member.append(text.as_str());
        list.item(member.as_str());
        let ghost after = fields@.push((name@, text@));
        assert(members(after) =~= members(fields@).push(member@));
        ObjectWriter { list, fields: Ghost(after) }
    }

    pub fn finish(self) -> (res: String)
        ensures
            res@ == object(self.fields()),
    {
        proof {
            use_type_invariant(&self);
        }
        let ObjectWriter { list, fields } = self;
        list.finish("{", "}")
    }
}

/// The number that decimal digits stand for.
pub open spec fn number_of(digits: Text) -> nat
    decreases digits.len(),
{
    if digits.len() == 0 {
        0
    } else {
        number_of(digits.drop_last()) * 10 + (digits.last() as nat - '0' as nat) as nat
    }
}

proof fn digits_stand_for_themselves(n: nat)
    requires
        n < 10,
    ensures
        digit(n).len() == 1,
        digit(n)[0] as nat == '0' as nat + n,
        '0' <= digit(n)[0] <= '9',
        n > 0 ==> digit(n)[0] != '0',
{
    reveal_strlit("0");
    reveal_strlit("1");
    reveal_strlit("2");
    reveal_strlit("3");
    reveal_strlit("4");
    reveal_strlit("5");
    reveal_strlit("6");
    reveal_strlit("7");
    reveal_strlit("8");
    reveal_strlit("9");
}

/// A number is written in decimal digits that stand for it, the first of which is no zero, but for
/// zero itself.
pub proof fn numbers_are_written_in_decimal(n: nat)
    ensures
        decimal(n).len() > 0,
        number_of(decimal(n)) == n,
        forall|i: int| 0 <= i < decimal(n).len() ==> '0' <= (#[trigger] decimal(n)[i]) <= '9',
        n > 0 ==> decimal(n)[0] != '0',
        n == 0 ==> decimal(n).len() == 1,
    decreases n,
{
    if n < 10 {
        digits_stand_for_themselves(n);
        let text = decimal(n);
        assert(text.drop_last() =~= Seq::<char>::empty());
        assert(number_of(text.drop_last()) == 0);
        assert(text[0] == digit(n)[0]);
    } else {
        numbers_are_written_in_decimal(n / 10);
        digits_stand_for_themselves(n % 10);
        let text = decimal(n);
        assert(text.drop_last() =~= decimal(n / 10));
        assert(text.last() == digit(n % 10)[0]);
        assert(text[0] == decimal(n / 10)[0]);
        assert forall|i: int| 0 <= i < text.len() implies '0' <= (#[trigger] text[i]) <= '9' by {
            if i < text.len() - 1 {
                assert(text[i] == decimal(n / 10)[i]);
            } else {
                assert(text[i] == digit(n % 10)[0]);
            }
        }
    }
}

/// Two numbers that are written alike are the same.
pub proof fn written_numbers_are_told_apart(a: nat, b: nat)
    ensures
        decimal(a) == decimal(b) ==> a == b,
{
    numbers_are_written_in_decimal(a);
    numbers_are_written_in_decimal(b);
}

/// A list grows by a comma and the text that is added, and stands between brackets; an object
/// grows by a comma and the member that is added, its name in quotes and a colon before its value,
/// and stands between braces.
pub proof fn lists_and_objects_grow_by_one(
    texts: Seq<Text>,
    text: Text,
    fields: Seq<(Text, Text)>,
    name: Text,
    value: Text,
)
    ensures
        array(Seq::empty()) == seq!['[', ']'],
        object(Seq::empty()) == seq!['{', '}'],
        array(texts.push(text)) == array(texts).drop_last() + (if texts.len() > 0 {
            seq![',']
        } else {
            Seq::empty()
        }) + text + seq![']'],
        object(fields.push((name, value))) == object(fields).drop_last() + (if fields.len() > 0 {
            seq![',']
        } else {
            Seq::empty()
        }) + seq!['"'] + name + seq!['"', ':'] + value + seq!['}'],
{
    reveal_strlit("[");
    reveal_strlit("]");
    reveal_strlit("{");
    reveal_strlit("}");
    reveal_strlit(",");
    reveal_strlit("\"");
    reveal_strlit("\":");
    assert(","@ =~= seq![',']);
    assert("["@ =~= seq!['[']);
    assert("]"@ =~= seq![']']);
    assert("{"@ =~= seq!['{']);
    assert("}"@ =~= seq!['}']);
    assert("\""@ =~= seq!['"']);
    assert("\":"@ =~= seq!['"', ':']);
    assert(array(Seq::empty()) =~= seq!['[', ']']);
    assert(members(Seq::empty()) =~= Seq::empty());
    assert(object(Seq::empty()) =~= seq!['{', '}']);
    assert(texts.push(text).drop_last() =~= texts);
    assert(array(texts).drop_last() =~= seq!['['] + listed(texts));
    if texts.len() == 0 {
        assert(listed(texts) =~= Seq::empty());
    }
    assert(array(texts.push(text)) =~= array(texts).drop_last() + (if texts.len() > 0 {
        seq![',']
    } else {
        Seq::empty()
    }) + text + seq![']']);
    let more = members(fields.push((name, value)));
    let member = seq!['"'] + name + seq!['"', ':'] + value;
    assert(more =~= members(fields).push(member));
    assert(more.drop_last() =~= members(fields));
    assert(object(fields).drop_last() =~= seq!['{'] + listed(members(fields)));
    if fields.len() == 0 {
        assert(listed(members(fields)) =~= Seq::empty());
    }
    assert(object(fields.push((name, value))) =~= object(fields).drop_last() + (if fields.len() > 0 {
        seq![',']
    } else {
        Seq::empty()
    }) + seq!['"'] + name + seq!['"', ':'] + value + seq!['}']);
}

} // verus!
