//! The data sources that a query for municipalities may name, and the form in which a
//! list of them goes on the wire.

use vstd::prelude::*;
use vstd::string::*;

verus! {

/// An upstream source of municipality data.
#[derive(Clone, Copy, Debug, PartialEq, Eq, Structural)]
pub enum MunicipalitiesProvider {
    DadosAbertos,
    Gov,
    Wikipedia,
}

/// The text that stands between two tokens of a provider list: one comma.
pub open spec fn separator() -> Seq<char> {
    ","@
}

impl MunicipalitiesProvider {
    /// The token that names this provider on the wire.
    pub open spec fn wire_token(self) -> Seq<char> {
        match self {
            MunicipalitiesProvider::DadosAbertos => "dados-abertos-br"@,
            MunicipalitiesProvider::Gov => "gov"@,
            MunicipalitiesProvider::Wikipedia => "wikipedia"@,
        }
    }

    /// The token that names this provider on the wire.
    pub fn to_string(&self) -> (token: &str)
        ensures
            token@ == self.wire_token(),
    {
        match self {
            MunicipalitiesProvider::DadosAbertos => "dados-abertos-br",
            MunicipalitiesProvider::Gov => "gov",
            MunicipalitiesProvider::Wikipedia => "wikipedia",
        }
    }
}

/// The tokens of a list of providers in the order of the list, with one separator
/// between each two neighbours. The empty list gives the empty text.
pub open spec fn joined_tokens(providers: Seq<MunicipalitiesProvider>) -> Seq<char>
    decreases providers.len(),
{
    if providers.len() == 0 {
        Seq::empty()
    } else if providers.len() == 1 {
        providers[0].wire_token()
    } else {
        joined_tokens(providers.drop_last()) + separator() + providers.last().wire_token()
    }
}

/// The value of the `providers` query parameter: the joined tokens of the list, and
/// the empty text where no list is given.
pub open spec fn providers_parameter(providers: Option<Vec<MunicipalitiesProvider>>) -> Seq<char> {
    match providers {
        Some(list) => joined_tokens(list@),
        None => Seq::empty(),
    }
}

/// Joins the tokens of a list of providers with commas, keeping the order of the list.
pub fn join_providers(providers: &Vec<MunicipalitiesProvider>) -> (joined: String)
    ensures
        joined@ == joined_tokens(providers@),
{
    let mut joined = String::new();
    let mut i: usize = 0;
    while i < providers.len()
        invariant
            i <= providers.len(),
            joined@ == joined_tokens(providers@.take(i as int)),
        decreases providers.len() - i,
    {
        let ghost before = providers@.take(i as int);
        let ghost after = providers@.take(i + 1);
        assert(after.drop_last() == before);
        assert(after.last() == providers@[i as int]);
        if i > 0 {
            joined.append(",");
        } else {
            assert(joined@ + providers@[i as int].wire_token() == providers@[i as int].wire_token());
        }
        joined.append(providers[i].to_string());
        i += 1;
    }
    assert(providers@.take(i as int) == providers@);
    joined
}

/// The value of the `providers` query parameter for an optional list of providers.
pub fn format_providers(providers: &Option<Vec<MunicipalitiesProvider>>) -> (parameter: String)
    ensures
        parameter@ == providers_parameter(*providers),
{
    match providers {
        Some(list) => join_providers(list),
        None => String::new(),
    }
}

/// The separator is the single character `,`.
pub proof fn lemma_separator_is_comma()
    ensures
        separator() == seq![','],
{
    reveal_strlit(",");
    assert(separator() =~= seq![',']);
}

/// No wire token is empty and none holds a comma.
pub proof fn lemma_wire_token_is_plain(provider: MunicipalitiesProvider)
    ensures
        provider.wire_token().len() > 0,
        forall|i: int| 0 <= i < provider.wire_token().len() ==> provider.wire_token()[i] != ',',
{
    reveal_strlit("dados-abertos-br");
    reveal_strlit("gov");
    reveal_strlit("wikipedia");
}

/// Two providers with one wire token are one provider.
pub proof fn lemma_wire_token_names_one_provider(
    first: MunicipalitiesProvider,
    second: MunicipalitiesProvider,
)
    requires
        first.wire_token() == second.wire_token(),
    ensures
        first == second,
{
    reveal_strlit("dados-abertos-br");
    reveal_strlit("gov");
    reveal_strlit("wikipedia");
    assert("dados-abertos-br"@.len() == 16);
    assert("gov"@.len() == 3);
    assert("wikipedia"@.len() == 9);
}

/// The joined text is empty for the empty list and for no other.
pub proof fn lemma_joined_empty_only_for_empty_list(providers: Seq<MunicipalitiesProvider>)
    ensures
        joined_tokens(providers).len() == 0 <==> providers.len() == 0,
{
    if providers.len() == 1 {
        lemma_wire_token_is_plain(providers[0]);
    } else if providers.len() > 1 {
        lemma_wire_token_is_plain(providers.last());
    }
}

/// Joining keeps the order of the list: the text of two non-empty lists put end to end
/// is the text of the first, a separator, and the text of the second.
pub proof fn lemma_joined_of_concatenation(
    front: Seq<MunicipalitiesProvider>,
    back: Seq<MunicipalitiesProvider>,
)
    requires
        front.len() > 0,
        back.len() > 0,
    ensures
        joined_tokens(front + back) == joined_tokens(front) + separator() + joined_tokens(back),
    decreases back.len(),
{
    let whole = front + back;
    assert(whole.last() == back.last());
    if back.len() == 1 {
        assert(whole.drop_last() =~= front);
    } else {
        assert(whole.drop_last() =~= front + back.drop_last());
        lemma_joined_of_concatenation(front, back.drop_last());
        assert(joined_tokens(whole) =~= joined_tokens(front) + separator() + joined_tokens(back));
    }
}

/// The joined text of a list of two or more providers has a separator right behind
/// the text of all but the last, and none after that one.
proof fn lemma_last_separator(providers: Seq<MunicipalitiesProvider>)
    requires
        providers.len() >= 2,
    ensures
        joined_tokens(providers).len() == joined_tokens(providers.drop_last()).len() + 1
            + providers.last().wire_token().len(),
        joined_tokens(providers)[joined_tokens(providers.drop_last()).len() as int] == ',',
        forall|i: int|
            joined_tokens(providers.drop_last()).len() < i < joined_tokens(providers).len()
                ==> joined_tokens(providers)[i] != ',',
{
    lemma_separator_is_comma();
    lemma_wire_token_is_plain(providers.last());
}

/// The joined text determines the list: two lists with one joined text hold the same
/// providers in the same order.
pub proof fn lemma_joined_determines_list(
    first: Seq<MunicipalitiesProvider>,
    second: Seq<MunicipalitiesProvider>,
)
    requires
        joined_tokens(first) == joined_tokens(second),
    ensures
        first == second,
    decreases first.len(),
{
    lemma_joined_empty_only_for_empty_list(first);
    lemma_joined_empty_only_for_empty_list(second);
    if first.len() == 0 {
        assert(first =~= second);
    } else if first.len() == 1 {
        lemma_wire_token_is_plain(first[0]);
        if second.len() >= 2 {
            lemma_last_separator(second);
            assert(false);
        }
        lemma_wire_token_names_one_provider(first[0], second[0]);
        assert(first =~= second);
    } else {
        lemma_last_separator(first);
        if second.len() == 1 {
            lemma_wire_token_is_plain(second[0]);
            assert(false);
        }
        lemma_last_separator(second);
        let text = joined_tokens(first);
        let cut_first = joined_tokens(first.drop_last()).len() as int;
        let cut_second = joined_tokens(second.drop_last()).len() as int;
        assert(cut_first == cut_second);
        assert(joined_tokens(first.drop_last()) =~= text.take(cut_first));
        assert(joined_tokens(second.drop_last()) =~= text.take(cut_second));
        assert(first.last().wire_token() =~= text.skip(cut_first + 1));
        assert(second.last().wire_token() =~= text.skip(cut_second + 1));
        lemma_joined_determines_list(first.drop_last(), second.drop_last());
        lemma_wire_token_names_one_provider(first.last(), second.last());
        assert(first =~= first.drop_last().push(first.last()));
        assert(second =~= second.drop_last().push(second.last()));
    }
}

} // verus!
