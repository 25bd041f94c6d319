//! Which models are GLM-5.3.

use vstd::prelude::*;

verus! {

/// What follows the last `/` of a path; the whole path where it has none.
pub open spec fn last_segment(path: Seq<char>) -> Seq<char>
    decreases path.len(),
{
    if path.len() == 0 || path.last() == '/' {
        Seq::empty()
    } else {
        last_segment(path.drop_last()).push(path.last())
    }
}

/// A letter between `A` and `Z` in lower case, and any other character as it is.
pub open spec fn ascii_lower(c: char) -> char {
    if 'A' <= c <= 'Z' {
        (c as u32 + 32) as char
    } else {
        c
    }
}

/// The character stays when a name is normalized.
pub open spec fn is_kept(c: char) -> bool {
    c != '-' && c != '_'
}

/// A name in lower case, without `-` and `_`.
pub open spec fn normalized(name: Seq<char>) -> Seq<char> {
    name.map_values(|c: char| ascii_lower(c)).filter(|c: char| is_kept(c))
}

/// The model id names GLM-5.3: without what stands before the last `/`, in lower
/// case and without `-` and `_`, it is `glm5.3`.
pub open spec fn names_glm53(model: Seq<char>) -> bool {
    normalized(last_segment(model)) == "glm5.3"@
}

fn to_ascii_lower(c: char) -> (lower: char)
    ensures
        lower == ascii_lower(c),
{
    if 'A' <= c && c <= 'Z' {
        ((c as u8) + 32) as char
    } else {
        c
    }
}

/// Normalizing a name one character longer.
proof fn lemma_normalized_push(name: Seq<char>, c: char)
    ensures
        normalized(name.push(c)) == (if is_kept(ascii_lower(c)) {
            normalized(name).push(ascii_lower(c))
        } else {
            normalized(name)
        }),
{
    reveal(Seq::filter);
    let lower = |c: char| ascii_lower(c);
    let mapped = name.push(c).map_values(lower);
    assert(mapped.drop_last() =~= name.map_values(lower));
    assert(mapped.last() == ascii_lower(c));
}

/// What stands before the last `/` of a model id plays no part: an organisation
/// may be put in front of any model id. A name without `/` is its own last
/// segment.
pub proof fn law_organisation_is_ignored(organisation: Seq<char>, name: Seq<char>)
    ensures
        last_segment(organisation.push('/') + name) == last_segment(name),
        names_glm53(organisation.push('/') + name) == names_glm53(name),
        !name.contains('/') ==> last_segment(name) == name,
    decreases name.len(),
{
    let path = organisation.push('/') + name;
    if name.len() > 0 {
        let rest = name.drop_last();
        law_organisation_is_ignored(organisation, rest);
        assert(path.drop_last() =~= organisation.push('/') + rest);
        assert(path.last() == name.last());
        if !name.contains('/') {
            assert forall|i: int| 0 <= i < rest.len() implies rest[i] != '/' by {
                assert(name.contains(name[i]));
            }
            assert(name.contains(name.last()));
            assert(rest.push(name.last()) =~= name);
        }
    } else {
        assert(path.last() == '/');
        assert(name =~= Seq::<char>::empty());
    }
}

/// Normalizing a path one segment at a time or as a whole makes no difference:
/// it neither makes a `/` nor takes one away.
proof fn lemma_normalized_last_segment(path: Seq<char>)
    ensures
        normalized(last_segment(path)) == last_segment(normalized(path)),
    decreases path.len(),
{
    if path.len() == 0 {
        reveal(Seq::filter);
        assert(normalized(path) =~= Seq::<char>::empty());
        assert(normalized(last_segment(path)) =~= Seq::<char>::empty());
    } else {
        let rest = path.drop_last();
        let c = path.last();
        assert(rest.push(c) =~= path);
        lemma_normalized_last_segment(rest);
        lemma_normalized_push(rest, c);
        lemma_normalized_push(last_segment(rest), c);
        assert(ascii_lower(c) == '/' <==> c == '/');
        if c == '/' {
            reveal(Seq::filter);
            assert(normalized(last_segment(path)) =~= Seq::<char>::empty());
        } else if is_kept(ascii_lower(c)) {
            assert(normalized(path).drop_last() =~= normalized(rest));
        }
    }
}

/// Two model ids that differ only in the case of letters and in `-` and `_` name
/// the same model or neither does.
pub proof fn law_spelling_is_ignored(model: Seq<char>, other: Seq<char>)
    requires
        normalized(model) == normalized(other),
    ensures
        names_glm53(model) == names_glm53(other),
{
    lemma_normalized_last_segment(model);
    lemma_normalized_last_segment(other);
}

/// A model id without the dot of the version does not name GLM-5.3.
pub proof fn law_version_dot_is_needed(model: Seq<char>)
    requires
        !model.contains('.'),
    ensures
        !names_glm53(model),
{
    let name = last_segment(model);
    let lower = |c: char| ascii_lower(c);
    let mapped = name.map_values(lower);
    lemma_last_segment_is_part(model);
    if names_glm53(model) {
        reveal_strlit("glm5.3");
        assert(normalized(name)[4] == '.');
        lemma_filter_is_part(mapped, |c: char| is_kept(c), 4);
        let at = choose|i: int| 0 <= i < mapped.len() && mapped[i] == '.';
        assert(ascii_lower(name[at]) == '.');
        assert(name[at] == '.');
        assert(model.contains(name[at]));
    }
}

proof fn lemma_last_segment_is_part(path: Seq<char>)
    ensures
        forall|i: int|
            0 <= i < last_segment(path).len() ==> path.contains(#[trigger] last_segment(path)[i]),
    decreases path.len(),
{
    if path.len() > 0 && path.last() != '/' {
        let rest = path.drop_last();
        lemma_last_segment_is_part(rest);
        assert forall|i: int| 0 <= i < last_segment(path).len() implies path.contains(
            #[trigger] last_segment(path)[i],
        ) by {
            if i < last_segment(rest).len() {
                assert(rest.contains(last_segment(rest)[i]));
                let at = choose|j: int| 0 <= j < rest.len() && rest[j] == last_segment(rest)[i];
                assert(path[at] == last_segment(path)[i]);
            } else {
                assert(path[path.len() - 1] == last_segment(path)[i]);
            }
        }
    }
}

proof fn lemma_filter_is_part(all: Seq<char>, pred: spec_fn(char) -> bool, i: int)
    requires
        0 <= i < all.filter(pred).len(),
    ensures
        all.contains(all.filter(pred)[i]),
    decreases all.len(),
{
    reveal(Seq::filter);
    if all.len() > 0 {
        let rest = all.drop_last();
        if i < rest.filter(pred).len() {
            lemma_filter_is_part(rest, pred, i);
            let at = choose|j: int| 0 <= j < rest.len() && rest[j] == rest.filter(pred)[i];
            assert(all[at] == all.filter(pred)[i]);
        } else {
            assert(all[all.len() - 1] == all.filter(pred)[i]);
        }
    }
}

/// Tells whether a model id names GLM-5.3, in any of the spellings that
/// deployments use: `glm-5.3`, `glm5.3`, `GLM_5.3`, each with or without an
/// organisation in front. The dot of the version is needed.
pub fn is_glm53_model_id(model: &str) -> (glm53: bool)
    ensures
        glm53 == names_glm53(model@),
{
    let mut name: Vec<char> = Vec::new();
    proof {
        reveal(Seq::filter);
        assert(name@ =~= normalized(last_segment(model@.take(0))));
    }
    for c in it: model.chars()
        invariant
            name@ == normalized(last_segment(model@.take(it.index() as int))),
            it.seq() == model@,
    {
        proof {
            let before = model@.take(it.index() as int);
            let after = model@.take(it.index() as int + 1);
            assert(after.drop_last() =~= before);
            assert(after.last() == c);
            lemma_normalized_push(last_segment(before), c);
        }
        if c == '/' {
            name.clear();
            proof {
                reveal(Seq::filter);
                assert(name@ =~= normalized(Seq::<char>::empty()));
            }
        } else {
            let lower = to_ascii_lower(c);
            if lower != '-' && lower != '_' {
                name.push(lower);
            }
        }
    }
    proof {
        assert(model@.take(model@.len() as int) =~= model@);
        reveal_strlit("glm5.3");
    }
    let glm53 = name.len() == 6 && name[0] == 'g' && name[1] == 'l' && name[2] == 'm' && name[3]
        == '5' && name[4] == '.' && name[5] == '3';
    assert(glm53 ==> name@ =~= "glm5.3"@);
    glm53
}

/// Taking out `-` and `_` and lowering the case may be done in either order.
proof fn lemma_normalized_is_kept_lowered(name: Seq<char>)
    ensures
        normalized(name) == name.filter(|c: char| c != '-' && c != '_').map_values(
            |c: char| ascii_lower(c),
        ),
    decreases name.len(),
{
    reveal(Seq::filter);
    let kept = |c: char| c != '-' && c != '_';
    let lower = |c: char| ascii_lower(c);
    if name.len() == 0 {
        assert(normalized(name) =~= Seq::<char>::empty());
        assert(name.filter(kept).map_values(lower) =~= Seq::<char>::empty());
    } else {
        let rest = name.drop_last();
        let c = name.last();
        assert(rest.push(c) =~= name);
        lemma_normalized_is_kept_lowered(rest);
        lemma_normalized_push(rest, c);
        if kept(c) {
            assert(name.filter(kept) == rest.filter(kept).push(c));
            assert(rest.filter(kept).push(c).map_values(lower) =~= rest.filter(kept).map_values(
                lower,
            ).push(lower(c)));
        } else {
            assert(name.filter(kept) == rest.filter(kept));
        }
    }
}

/// Exactly these model ids name GLM-5.3: those whose name behind the last `/` has
/// six characters besides `-` and `_`, and these are a `g`, an `l` and an `m` in
/// either case, a `5`, a dot and a `3`.
pub proof fn law_spellings_of_glm53(
    model: &str,
    organisation: Seq<char>,
    name: Seq<char>,
    glm53: bool,
)
    requires
        model@ == organisation + name,
        organisation.len() == 0 || organisation.last() == '/',
        !name.contains('/'),
        call_ensures(is_glm53_model_id, (model,), glm53),
    ensures
        ({
            let kept = name.filter(|c: char| c != '-' && c != '_');
            glm53 <==> {
                &&& kept.len() == 6
                &&& kept[0] == 'g' || kept[0] == 'G'
                &&& kept[1] == 'l' || kept[1] == 'L'
                &&& kept[2] == 'm' || kept[2] == 'M'
                &&& kept[3] == '5'
                &&& kept[4] == '.'
                &&& kept[5] == '3'
            }
        }),
{
    let kept = name.filter(|c: char| c != '-' && c != '_');
    if organisation.len() > 0 {
        law_organisation_is_ignored(organisation.drop_last(), name);
        assert(organisation.drop_last().push('/') + name =~= model@);
    } else {
        law_organisation_is_ignored(organisation, name);
        assert(model@ =~= name);
    }
    lemma_normalized_is_kept_lowered(name);
    reveal_strlit("glm5.3");
    let shown = kept.map_values(|c: char| ascii_lower(c));
    assert(shown.len() == kept.len());
    if kept.len() == 6 {
        assert(forall|i: int| 0 <= i < 6 ==> shown[i] == ascii_lower(#[trigger] kept[i]));
        if glm53 {
            assert(shown == "glm5.3"@);
            assert(shown[0] == 'g' && shown[1] == 'l' && shown[2] == 'm' && shown[3] == '5'
                && shown[4] == '.' && shown[5] == '3');
            assert(ascii_lower(kept[0]) == 'g');
            assert(ascii_lower(kept[1]) == 'l');
            assert(ascii_lower(kept[2]) == 'm');
            assert(ascii_lower(kept[3]) == '5');
            assert(ascii_lower(kept[4]) == '.');
            assert(ascii_lower(kept[5]) == '3');
        } else {
            if {
                &&& kept[0] == 'g' || kept[0] == 'G'
                &&& kept[1] == 'l' || kept[1] == 'L'
                &&& kept[2] == 'm' || kept[2] == 'M'
                &&& kept[3] == '5'
                &&& kept[4] == '.'
                &&& kept[5] == '3'
            } {
                assert(shown =~= "glm5.3"@);
            }
        }
    }
}

/// Every model id has such a name: what follows its last `/`, or all of it.
pub proof fn law_every_model_id_has_a_name(model: Seq<char>)
    ensures
        exists|organisation: Seq<char>, name: Seq<char>|
            model == #[trigger] (organisation + name) && (organisation.len() == 0
                || organisation.last() == '/') && !name.contains('/'),
    decreases model.len(),
{
    if model.len() == 0 || model.last() == '/' {
        assert(model =~= model + Seq::<char>::empty());
        assert(!Seq::<char>::empty().contains('/'));
    } else {
        let rest = model.drop_last();
        law_every_model_id_has_a_name(rest);
        let (organisation, name) = choose|organisation: Seq<char>, name: Seq<char>|
            rest == #[trigger] (organisation + name) && (organisation.len() == 0
                || organisation.last() == '/') && !name.contains('/');
        let longer = name.push(model.last());
        assert(model =~= rest.push(model.last()));
        assert(rest.push(model.last()) =~= organisation + longer);
        assert forall|i: int| 0 <= i < longer.len() implies longer[i] != '/' by {
            if i < name.len() {
                assert(name.contains(name[i]));
            }
        }
    }
}

} // verus!
