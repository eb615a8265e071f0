//! The pig-latin transform of a single word.

use vstd::prelude::*;
use vstd::std_specs::iter::IteratorSpec;
use vstd::string::StringExecFns;

verus! {

/// Whether a word starts the vowel way: with an ASCII vowel of either case.
pub open spec fn starts_with_vowel(c: char) -> bool {
    c == 'a' || c == 'e' || c == 'i' || c == 'o' || c == 'u' || c == 'A' || c == 'E' || c == 'I'
        || c == 'O' || c == 'U'
}

fn vowel_start(c: char) -> (r: bool)
    ensures
        r == starts_with_vowel(c),
{
    c == 'a' || c == 'e' || c == 'i' || c == 'o' || c == 'u' || c == 'A' || c == 'E' || c == 'I'
        || c == 'O' || c == 'U'
}

/// Relies on String::push: it appends exactly one character.
#[verifier::external_body]
fn push_char(s: &mut String, c: char)
    ensures
        final(s)@ == old(s)@ + seq![c],
{
    s.push(c);
}

/// The pig-latin form of one word: a word that starts with a vowel gets
/// `-hay` appended; any other nonempty word loses its first character,
/// which reappears after a dash, followed by `ay`; the empty word stays
/// empty.
pub fn pig_latin_word(word: &str) -> (r: String)
    ensures
        word@.len() == 0 ==> r@ == Seq::<char>::empty(),
        word@.len() > 0 && starts_with_vowel(word@[0]) ==> r@ == word@ + seq!['-', 'h', 'a', 'y'],
        word@.len() > 0 && !starts_with_vowel(word@[0]) ==> r@ == word@.drop_first() + seq![
            '-',
            word@[0],
            'a',
            'y',
        ],
{
    broadcast use vstd::string::next_postcondition, vstd::string::axiom_spec_iter;

    let mut it = word.chars();
    match it.next() {
        None => String::new(),
        Some(first) => {
            if vowel_start(first) {
                let mut s = word.to_owned();
                s.append("-hay");
                proof {
                    reveal_strlit("-hay");
                    assert(s@ =~= word@ + seq!['-', 'h', 'a', 'y']);
                }
                s
            } else {
                let mut s = String::new();
                loop
                    invariant
                        word@.len() > 0,
                        s@ + it.remaining() == word@.drop_first(),
                    ensures
                        s@ == word@.drop_first(),
                    decreases word@.len() - s@.len(),
                {
                    match it.next() {
                        None => {
                            proof {
                                assert(s@ =~= s@ + it.remaining());
                            }
                            break ;
                        },
                        Some(c) => {
                            let ghost rem = it.remaining();
                            let ghost s_before = s@;
                            push_char(&mut s, c);
                            proof {
                                assert(s@ + rem =~= s_before + seq![c] + rem);
                                assert(s_before + seq![c] + rem =~= s_before + (seq![c] + rem));
                            }
                        },
                    }
                }
                push_char(&mut s, '-');
                push_char(&mut s, first);
                s.append("ay");
                proof {
                    reveal_strlit("ay");
                    assert(s@ =~= word@.drop_first() + seq!['-', word@[0], 'a', 'y']);
                }
                s
            }
        },
    }
}

} // verus!
