//! The records that the IBGE endpoints return: municipalities, states and the regions
//! that states belong to. A record is complete once built and is never changed.
//!
//! The fields carry the names that the upstream uses on the wire: `nome`,
//! `codigo_ibge`, `sigla`, `regiao`.

use vstd::prelude::*;
use vstd::std_specs::cmp::PartialEqSpecImpl;

verus! {

/// A municipality as a mathematical value.
pub struct MunicipalityView {
    pub name: Seq<char>,
    pub ibge_code: Seq<char>,
}

/// A region as a mathematical value.
pub struct StateRegionView {
    pub id: i32,
    pub abbreviation: Seq<char>,
    pub name: Seq<char>,
}

/// A state as a mathematical value.
pub struct StateView {
    pub id: i32,
    pub abbreviation: Seq<char>,
    pub name: Seq<char>,
    pub region: StateRegionView,
}

/// A municipality: its name and the code that IBGE gave it.
#[derive(Debug)]
pub struct Municipality {
    nome: String,
    codigo_ibge: String,
}

impl View for Municipality {
    type V = MunicipalityView;

    closed spec fn view(&self) -> MunicipalityView {
        MunicipalityView { name: self.nome@, ibge_code: self.codigo_ibge@ }
    }
}

impl Municipality {
    /// A municipality with the given name and IBGE code.
    pub fn new(name: String, ibge_code: String) -> (municipality: Municipality)
        ensures
            municipality@ == (MunicipalityView { name: name@, ibge_code: ibge_code@ }),
    {
        Municipality { nome: name, codigo_ibge: ibge_code }
    }

    /// The name of the municipality.
    pub fn get_name(&self) -> (name: &str)
        ensures
            name@ == self@.name,
    {
        self.nome.as_str()
    }

    /// The IBGE code of the municipality.
    pub fn get_ibge_code(&self) -> (ibge_code: &str)
        ensures
            ibge_code@ == self@.ibge_code,
    {
        self.codigo_ibge.as_str()
    }
}

impl Clone for Municipality {
    fn clone(&self) -> (copy: Municipality)
        ensures
            copy@ == self@,
    {
        Municipality { nome: self.nome.clone(), codigo_ibge: self.codigo_ibge.clone() }
    }
}

impl PartialEq for Municipality {
    fn eq(&self, other: &Municipality) -> (same: bool) {
        self.nome == other.nome && self.codigo_ibge == other.codigo_ibge
    }
}

impl Eq for Municipality {

}

impl PartialEqSpecImpl for Municipality {
    open spec fn obeys_eq_spec() -> bool {
        true
    }

    open spec fn eq_spec(&self, other: &Municipality) -> bool {
        self@ == other@
    }
}

/// The region that a state belongs to.
#[derive(Debug)]
pub struct StateRegion {
    id: i32,
    sigla: String,
    nome: String,
}

impl View for StateRegion {
    type V = StateRegionView;

    closed spec fn view(&self) -> StateRegionView {
        StateRegionView { id: self.id, abbreviation: self.sigla@, name: self.nome@ }
    }
}

impl StateRegion {
    /// A region with the given identifier, abbreviation and name.
    pub fn new(id: i32, abbreviation: String, name: String) -> (region: StateRegion)
        ensures
            region@ == (StateRegionView { id, abbreviation: abbreviation@, name: name@ }),
    {
        StateRegion { id, sigla: abbreviation, nome: name }
    }

    /// The identifier of the region.
    pub fn get_id(&self) -> (id: i32)
        ensures
            id == self@.id,
    {
        self.id
    }

    /// The abbreviation of the region.
    pub fn get_sigla(&self) -> (abbreviation: &str)
        ensures
            abbreviation@ == self@.abbreviation,
    {
        self.sigla.as_str()
    }

    /// The name of the region.
    pub fn get_name(&self) -> (name: &str)
        ensures
            name@ == self@.name,
    {
        self.nome.as_str()
    }
}

impl Clone for StateRegion {
    fn clone(&self) -> (copy: StateRegion)
        ensures
            copy@ == self@,
    {
        StateRegion { id: self.id, sigla: self.sigla.clone(), nome: self.nome.clone() }
    }
}

impl PartialEq for StateRegion {
    fn eq(&self, other: &StateRegion) -> (same: bool) {
        self.id == other.id && self.sigla == other.sigla && self.nome == other.nome
    }
}

impl Eq for StateRegion {

}

impl PartialEqSpecImpl for StateRegion {
    open spec fn obeys_eq_spec() -> bool {
        true
    }

    open spec fn eq_spec(&self, other: &StateRegion) -> bool {
        self@ == other@
    }
}

/// A federative unit: its identifier, its two-letter abbreviation, its name and its
/// region.
#[derive(Debug)]
pub struct State {
    id: i32,
    sigla: String,
    nome: String,
    regiao: StateRegion,
}

impl View for State {
    type V = StateView;

    closed spec fn view(&self) -> StateView {
        StateView {
            id: self.id,
            abbreviation: self.sigla@,
            name: self.nome@,
            region: self.regiao@,
        }
    }
}

impl State {
    /// A state with the given identifier, abbreviation, name and region.
    pub fn new(id: i32, abbreviation: String, name: String, region: StateRegion) -> (state: State)
        ensures
            state@ == (StateView {
                id,
                abbreviation: abbreviation@,
                name: name@,
                region: region@,
            }),
    {
        State { id, sigla: abbreviation, nome: name, regiao: region }
    }

    /// The identifier of the state.
    pub fn get_id(&self) -> (id: i32)
        ensures
            id == self@.id,
    {
        self.id
    }

    /// The abbreviation of the state.
    pub fn get_sigla(&self) -> (abbreviation: &str)
        ensures
            abbreviation@ == self@.abbreviation,
    {
        self.sigla.as_str()
    }

    /// The name of the state.
    pub fn get_name(&self) -> (name: &str)
        ensures
            name@ == self@.name,
    {
        self.nome.as_str()
    }

    /// The region of the state.
    pub fn get_region(&self) -> (region: &StateRegion)
        ensures
            region@ == self@.region,
    {
        &self.regiao
    }
}

impl Clone for State {
    fn clone(&self) -> (copy: State)
        ensures
            copy@ == self@,
    {
        State {
            id: self.id,
            sigla: self.sigla.clone(),
            nome: self.nome.clone(),
            regiao: self.regiao.clone(),
        }
    }
}

impl PartialEq for State {
    fn eq(&self, other: &State) -> (same: bool) {
        self.id == other.id && self.sigla == other.sigla && self.nome == other.nome
            && self.regiao == other.regiao
    }
}

impl Eq for State {

}

impl PartialEqSpecImpl for State {
    open spec fn obeys_eq_spec() -> bool {
        true
    }

    open spec fn eq_spec(&self, other: &State) -> bool {
        self@ == other@
    }
}

} // verus!
