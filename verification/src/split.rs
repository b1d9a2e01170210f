//! Cutting a template into sections, one per `%` run.

use vstd::prelude::*;

verus! {

/// Whether `section` is a single `%` and nothing else.
pub open spec fn is_lone_percent(section: Seq<char>) -> bool {
    section.len() == 1 && section[0] == '%'
}

/// The sections of `template`, in order.
///
/// Read from left to right, a character opens a new section when nothing is
/// open yet, or when it is a `%` and the open section is not a lone `%`;
/// every other character joins the open section. So `%%` stays together, and
/// a section either starts with `%` or holds none.
pub open spec fn split_sections(template: Seq<char>) -> Seq<Seq<char>>
    decreases template.len(),
{
    if template.len() == 0 {
        Seq::empty()
    } else {
        let before = split_sections(template.drop_last());
        let c = template.last();
        if before.len() == 0 || (c == '%' && !is_lone_percent(before.last())) {
            before.push(seq![c])
        } else {
            before.update(before.len() - 1, before.last().push(c))
        }
    }
}

/// Whether `section` is one that the splitter can produce: it is not empty,
/// and a `%` stands only at its start, or right behind a `%` at its start.
pub open spec fn is_section(section: Seq<char>) -> bool {
    &&& section.len() > 0
    &&& forall|i: int|
        0 <= i < section.len() && #[trigger] section[i] == '%' ==> i == 0 || (i == 1 && section[0]
            == '%')
}

/// The texts of a vector of strings.
pub open spec fn texts(strings: Seq<String>) -> Seq<Seq<char>> {
    Seq::new(strings.len(), |i: int| strings[i]@)
}

/// The sections of a template, put together again, are the template.
pub proof fn lemma_split_joins(template: Seq<char>)
    ensures
        split_sections(template).flatten() == template,
    decreases template.len(),
{
    broadcast use Seq::<_>::lemma_flatten_push;

    if template.len() > 0 {
        let before = split_sections(template.drop_last());
        let c = template.last();
        lemma_split_joins(template.drop_last());
        if before.len() > 0 && !(c == '%' && !is_lone_percent(before.last())) {
            let init = before.drop_last();
            assert(before == init.push(before.last()));
            assert(split_sections(template) == init.push(before.last().push(c)));
            assert(init.flatten() + before.last().push(c) == (init.flatten()
                + before.last()).push(c));
        }
    }
}

/// Every section of a template is well formed, and only the empty template
/// has no section.
pub proof fn lemma_split_sections_shape(template: Seq<char>)
    ensures
        forall|k: int|
            0 <= k < split_sections(template).len() ==> is_section(
                #[trigger] split_sections(template)[k],
            ),
        split_sections(template).len() == 0 <==> template.len() == 0,
    decreases template.len(),
{
    if template.len() > 0 {
        lemma_split_sections_shape(template.drop_last());
        let before = split_sections(template.drop_last());
        let after = split_sections(template);
        assert forall|k: int| 0 <= k < after.len() implies is_section(#[trigger] after[k]) by {
            if k < before.len() {
                assert(is_section(before[k]));
            }
        }
    }
}

/// A template without `%` is one section, unless it is empty.
pub proof fn lemma_split_plain(template: Seq<char>)
    requires
        forall|i: int| 0 <= i < template.len() ==> template[i] != '%',
    ensures
        template.len() > 0 ==> split_sections(template) == seq![template],
        template.len() == 0 ==> split_sections(template) == Seq::<Seq<char>>::empty(),
    decreases template.len(),
{
    if template.len() > 0 {
        lemma_split_plain(template.drop_last());
        let c = template.last();
        if template.len() == 1 {
            assert(seq![c] == template);
        } else {
            assert(template.drop_last().push(c) == template);
        }
    }
}

/// Cuts `format_string` into its sections.
pub fn partition_format_string_into_sections(format_string: &str) -> (sections: Vec<String>)
    ensures
        texts(sections@) == split_sections(format_string@),
        texts(sections@).flatten() == format_string@,
        forall|k: int| 0 <= k < sections.len() ==> is_section(#[trigger] sections[k]@),
        sections.len() == 0 <==> format_string@.len() == 0,
{
    let mut sections: Vec<String> = Vec::new();
    let mut current = String::new();
    let mut open = false;
    let mut lone = false;

    for c in it: format_string.chars()
        invariant
            it.seq() == format_string@,
            !open ==> it.index() == 0 && sections@.len() == 0 && current@.len() == 0,
            open ==> texts(sections@).push(current@) == split_sections(
                format_string@.take(it.index() as int),
            ),
            open ==> lone == is_lone_percent(current@),
    {
        let ghost seen = format_string@.take(it.index() as int);
        let ghost next = format_string@.take(it.index() + 1);
        proof {
            assert(next.drop_last() == seen);
        }
        if !open {
            current.push(c);
            open = true;
            lone = c == '%';
            proof {
                assert(current@ == seq![c]);
                assert(split_sections(seen).len() == 0);
            }
        } else if c == '%' && !lone {
            sections.push(current);
            current = String::new();
            current.push(c);
            lone = true;
        } else {
            current.push(c);
            lone = false;
        }
    }

    proof {
        assert(format_string@.take(format_string@.len() as int) == format_string@);
    }
    if open {
        sections.push(current);
        proof {
            assert(texts(sections@) == split_sections(format_string@));
        }
    }
    proof {
        lemma_split_joins(format_string@);
        lemma_split_sections_shape(format_string@);
        assert forall|k: int| 0 <= k < sections.len() implies is_section(
            #[trigger] sections[k]@,
        ) by {
            assert(texts(sections@)[k] == sections[k]@);
        }
    }
    sections
}

} // verus!
