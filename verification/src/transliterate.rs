//! Text normalisation: Cyrillic letters are replaced by a fixed Latin
//! approximation, so that text fits a byte-oriented consumer.

use vstd::prelude::*;

verus! {

/// The number of replacement rules.
pub const RULE_COUNT: usize = 66;

/// The replacement rules: each Russian letter, small and capital, with the
/// Latin text that stands for it. The hard and the soft sign are dropped.
pub const RULES: [(&'static str, &'static str); 66] = [
    // small letters
    ("а", "a"), ("б", "b"), ("в", "v"), ("г", "g"), ("д", "d"),
    ("е", "e"), ("ё", "yo"), ("ж", "zh"), ("з", "z"), ("и", "i"),
    ("й", "y"), ("к", "k"), ("л", "l"), ("м", "m"), ("н", "n"),
    ("о", "o"), ("п", "p"), ("р", "r"), ("с", "s"), ("т", "t"),
    ("у", "u"), ("ф", "f"), ("х", "kh"), ("ц", "ts"), ("ч", "ch"),
    ("ш", "sh"), ("щ", "sch"), ("ъ", ""), ("ы", "y"), ("ь", ""),
    ("э", "e"), ("ю", "yu"), ("я", "ya"),
    // capital letters
    ("А", "A"), ("Б", "B"), ("В", "V"), ("Г", "G"), ("Д", "D"),
    ("Е", "E"), ("Ё", "Yo"), ("Ж", "Zh"), ("З", "Z"), ("И", "I"),
    ("Й", "Y"), ("К", "K"), ("Л", "L"), ("М", "M"), ("Н", "N"),
    ("О", "O"), ("П", "P"), ("Р", "R"), ("С", "S"), ("Т", "T"),
    ("У", "U"), ("Ф", "F"), ("Х", "Kh"), ("Ц", "Ts"), ("Ч", "Ch"),
    ("Ш", "Sh"), ("Щ", "Sch"), ("Ъ", ""), ("Ы", "Y"), ("Ь", ""),
    ("Э", "E"), ("Ю", "Yu"), ("Я", "Ya"),
];

/// The most rules that a table handed to the transliterator may hold.
pub const MAX_RULES: usize = 256;

/// The most characters that either side of a rule may hold.
pub const MAX_RULE_CHARS: usize = 8;

/// A table is small enough for the transliterator to be built from it, and
/// every rule in it replaces something.
pub open spec fn rules_fit(rules: Seq<(&'static str, &'static str)>) -> bool {
    &&& rules.len() <= MAX_RULES
    &&& forall|i: int|
        0 <= i < rules.len() ==> 1 <= (#[trigger] rules[i]).0@.len() <= MAX_RULE_CHARS
            && rules[i].1@.len() <= MAX_RULE_CHARS
}

/// The rules as texts.
pub open spec fn rule_texts(rules: Seq<(&'static str, &'static str)>) -> Seq<(Seq<char>, Seq<char>)> {
    rules.map_values(|rule: (&'static str, &'static str)| (rule.0@, rule.1@))
}

/// The rules of this library are few and short enough for the
/// transliterator.
pub proof fn transliteration_rules_fit()
    ensures
        rules_fit(RULES@),
{
    reveal_strlit("а");
    reveal_strlit("a");
    reveal_strlit("б");
    reveal_strlit("b");
    reveal_strlit("в");
    reveal_strlit("v");
    reveal_strlit("г");
    reveal_strlit("g");
    reveal_strlit("д");
    reveal_strlit("d");
    reveal_strlit("е");
    reveal_strlit("e");
    reveal_strlit("ё");
    reveal_strlit("yo");
    reveal_strlit("ж");
    reveal_strlit("zh");
    reveal_strlit("з");
    reveal_strlit("z");
    reveal_strlit("и");
    reveal_strlit("i");
    reveal_strlit("й");
    reveal_strlit("y");
    reveal_strlit("к");
    reveal_strlit("k");
    reveal_strlit("л");
    reveal_strlit("l");
    reveal_strlit("м");
    reveal_strlit("m");
    reveal_strlit("н");
    reveal_strlit("n");
    reveal_strlit("о");
    reveal_strlit("o");
    reveal_strlit("п");
    reveal_strlit("p");
    reveal_strlit("р");
    reveal_strlit("r");
    reveal_strlit("с");
    reveal_strlit("s");
    reveal_strlit("т");
    reveal_strlit("t");
    reveal_strlit("у");
    reveal_strlit("u");
    reveal_strlit("ф");
    reveal_strlit("f");
    reveal_strlit("х");
    reveal_strlit("kh");
    reveal_strlit("ц");
    reveal_strlit("ts");
    reveal_strlit("ч");
    reveal_strlit("ch");
    reveal_strlit("ш");
    reveal_strlit("sh");
    reveal_strlit("щ");
    reveal_strlit("sch");
    reveal_strlit("ъ");
    reveal_strlit("");
    reveal_strlit("ы");
    reveal_strlit("ь");
    reveal_strlit("э");
    reveal_strlit("ю");
    reveal_strlit("yu");
    reveal_strlit("я");
    reveal_strlit("ya");
    reveal_strlit("А");
    reveal_strlit("A");
    reveal_strlit("Б");
    reveal_strlit("B");
    reveal_strlit("В");
    reveal_strlit("V");
    reveal_strlit("Г");
    reveal_strlit("G");
    reveal_strlit("Д");
    reveal_strlit("D");
    reveal_strlit("Е");
    reveal_strlit("E");
    reveal_strlit("Ё");
    reveal_strlit("Yo");
    reveal_strlit("Ж");
    reveal_strlit("Zh");
    reveal_strlit("З");
    reveal_strlit("Z");
    reveal_strlit("И");
    reveal_strlit("I");
    reveal_strlit("Й");
    reveal_strlit("Y");
    reveal_strlit("К");
    reveal_strlit("K");
    reveal_strlit("Л");
    reveal_strlit("L");
    reveal_strlit("М");
    reveal_strlit("M");
    reveal_strlit("Н");
    reveal_strlit("N");
    reveal_strlit("О");
    reveal_strlit("O");
    reveal_strlit("П");
    reveal_strlit("P");
    reveal_strlit("Р");
    reveal_strlit("R");
    reveal_strlit("С");
    reveal_strlit("S");
    reveal_strlit("Т");
    reveal_strlit("T");
    reveal_strlit("У");
    reveal_strlit("U");
    reveal_strlit("Ф");
    reveal_strlit("F");
    reveal_strlit("Х");
    reveal_strlit("Kh");
    reveal_strlit("Ц");
    reveal_strlit("Ts");
    reveal_strlit("Ч");
    reveal_strlit("Ch");
    reveal_strlit("Ш");
    reveal_strlit("Sh");
    reveal_strlit("Щ");
    reveal_strlit("Sch");
    reveal_strlit("Ъ");
    reveal_strlit("Ы");
    reveal_strlit("Ь");
    reveal_strlit("Э");
    reveal_strlit("Ю");
    reveal_strlit("Yu");
    reveal_strlit("Я");
    reveal_strlit("Ya");
}

/// What the transliterator makes of `text` when it is built from `rules`.
pub uninterp spec fn latin_form(rules: Seq<(Seq<char>, Seq<char>)>, text: Seq<char>) -> Seq<char>;

/// The normalised form of `text` under the rules of this library.
pub open spec fn transliterated(text: Seq<char>) -> Seq<char> {
    latin_form(rule_texts(RULES@), text)
}

/// Builds a `translit::Transliterator` from `rules` with
/// `Transliterator::new` and runs its `convert` on `text`, towards Latin.
/// The result depends on the rules and the text alone, and is what
/// `latin_form` names. The demand on the rules keeps the transliterator's
/// pattern matcher within its limits, outside of which `new` panics, and
/// keeps the empty pattern out of it.
#[verifier::external_body]
fn convert_to_latin(rules: Vec<(&'static str, &'static str)>, text: &str) -> (latin: String)
    requires
        rules_fit(rules@),
    ensures
        latin@ == latin_form(rule_texts(rules@), text@),
{
    translit::Transliterator::new(rules).convert(text, false)
}

/// The replacement rules as a table for the transliterator.
pub fn get_transliteration_table() -> (table: Vec<(&'static str, &'static str)>)
    ensures
        table@ == RULES@,
{
    let mut table: Vec<(&'static str, &'static str)> = Vec::new();
    let mut i: usize = 0;
    while i < RULE_COUNT
        invariant
            i <= RULE_COUNT,
            table@ == RULES@.take(i as int),
        decreases RULE_COUNT - i,
    {
        table.push(RULES[i]);
        assert(RULES@.take(i + 1) =~= RULES@.take(i as int).push(RULES@[i as int]));
        i = i + 1;
    }
    assert(RULES@.take(RULE_COUNT as int) =~= RULES@);
    table
}

/// Normalises `text`: Russian letters become their Latin approximation.
pub fn transliterate_text(text: &str) -> (latin: String)
    ensures
        latin@ == transliterated(text@),
{
    let table = get_transliteration_table();
    proof {
        transliteration_rules_fit();
    }
    convert_to_latin(table, text)
}

} // verus!
