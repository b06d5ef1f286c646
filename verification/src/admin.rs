use vstd::prelude::*;
use crate::asset::Asset;
use crate::error::ContractError;
use crate::response::{action, attr_string, attr_views, Msg, Response};

verus! {

/// Whether `sender` is the stored administrator.
pub open spec fn is_admin(admin: Option<String>, sender: Seq<char>) -> bool {
    admin matches Some(a) && a@ == sender
}

/// Fails unless `sender` is the administrator; `admin` is what storage holds.
pub fn assert_admin(admin: Result<Option<String>, ContractError>, sender: &String) -> (res: Result<
    (),
    ContractError,
>)
    ensures
        match admin {
            Err(e) => res == Err::<(), ContractError>(e),
            Ok(a) => if is_admin(a, sender@) {
                res is Ok
            } else {
                res == Err::<(), ContractError>(ContractError::NotAdmin)
            },
        },
{
    match admin {
        Err(e) => Err(e),
        Ok(Some(a)) => if a == *sender {
            Ok(())
        } else {
            Err(ContractError::NotAdmin)
        },
        Ok(None) => Err(ContractError::NotAdmin),
    }
}

/// Sends a stuck asset to `receiver`, or back to the caller when none is given; only the
/// administrator may do so.
pub fn execute_withdraw_asset(
    sender: &String,
    admin: Result<Option<String>, ContractError>,
    coin: Asset,
    receiver: Option<String>,
) -> (res: Result<Response, ContractError>)
    ensures
        match admin {
            Err(e) => res == Err::<Response, ContractError>(e),
            Ok(a) => if !is_admin(a, sender@) {
                res == Err::<Response, ContractError>(ContractError::NotAdmin)
            } else {
                res matches Ok(r) && r.messages@ == seq![
                    Msg::Transfer {
                        asset: coin,
                        recipient: match receiver {
                            Some(x) => x,
                            None => *sender,
                        },
                    },
                ] && attr_views(r.attributes@) == seq![("action"@, "withdraw_asset"@)]
            },
        },
{
    if let Err(e) = assert_admin(admin, sender) {
        return Err(e);
    }
    let recipient = match receiver {
        Some(x) => x,
        None => sender.clone(),
    };
    let mut response = Response::new();
    response.attributes.push(action("withdraw_asset"));
    response.messages.push(Msg::Transfer { asset: coin, recipient });
    assert(attr_views(response.attributes@) =~= seq![("action"@, "withdraw_asset"@)]);
    Ok(response)
}

/// A swap venue to add: its name and adapter address, what the chain said of that
/// address, and whether storage already holds a venue of that name.
#[derive(Debug, PartialEq, Eq)]
pub struct SwapVenueUpdate {
    pub name: String,
    pub adapter_contract_address: String,
    pub address_check: Result<(), ContractError>,
    pub name_stored: bool,
}

/// An adapter address to set, and what the chain said of it.
#[derive(Debug, PartialEq, Eq)]
pub struct AddressUpdate {
    pub address: String,
    pub address_check: Result<(), ContractError>,
}

/// A stored swap venue.
#[derive(Debug, PartialEq, Eq)]
pub struct SwapVenueEntry {
    pub name: String,
    pub address: String,
}

/// What a configuration update writes and answers.
#[derive(Debug, PartialEq, Eq)]
pub struct ConfigUpdate {
    /// Venues to store, in order.
    pub swap_venues: Vec<SwapVenueEntry>,
    /// Addresses that contract calls may no longer target, in order.
    pub blocked: Vec<String>,
    pub ibc_transfer_contract_address: Option<String>,
    pub ibc_wasm_contract_address: Option<String>,
    pub owner: Option<String>,
    pub response: Response,
}

/// The stored venues, by name, after storing `entries` in order over `venues`.
pub open spec fn stored_venues(
    venues: Map<Seq<char>, Seq<char>>,
    entries: Seq<SwapVenueEntry>,
) -> Map<Seq<char>, Seq<char>>
    decreases entries.len(),
{
    if entries.len() == 0 {
        venues
    } else {
        stored_venues(venues, entries.drop_last()).insert(
            entries.last().name@,
            entries.last().address@,
        )
    }
}

/// The blocked addresses after blocking `added` on top of `blocked`.
pub open spec fn blocked_after(blocked: Set<Seq<char>>, added: Seq<String>) -> Set<Seq<char>> {
    Set::new(
        |a: Seq<char>|
            blocked.contains(a) || exists|i: int| 0 <= i < added.len() && #[trigger] added[i]@ == a,
    )
}

/// A stored address after an update that sets it when it gives one.
pub open spec fn stored_after(stored: Option<Seq<char>>, update: Option<String>) -> Option<
    Seq<char>,
> {
    match update {
        Some(a) => Some(a@),
        None => stored,
    }
}

/// Every stored venue adapter and stored IBC adapter is blocked as a target of contract
/// calls.
pub open spec fn adapters_blocked(
    venues: Map<Seq<char>, Seq<char>>,
    blocked: Set<Seq<char>>,
    ibc_transfer: Option<Seq<char>>,
    ibc_wasm: Option<Seq<char>>,
) -> bool {
    &&& forall|k: Seq<char>| #[trigger] venues.dom().contains(k) ==> blocked.contains(venues[k])
    &&& ibc_transfer matches Some(t) ==> blocked.contains(t)
    &&& ibc_wasm matches Some(w) ==> blocked.contains(w)
}

/// The first error among the venues: a refused adapter address, or a name that storage
/// holds or that an earlier venue of the list takes.
pub open spec fn venues_error(v: Seq<SwapVenueUpdate>) -> Option<ContractError>
    decreases v.len(),
{
    if v.len() == 0 {
        None
    } else {
        let prev = venues_error(v.drop_last());
        if prev is Some {
            prev
        } else if v.last().address_check is Err {
            Some(v.last().address_check->Err_0)
        } else if v.last().name_stored || exists|j: int|
            0 <= j < v.len() - 1 && #[trigger] v[j].name@ == v.last().name@ {
            Some(ContractError::DuplicateSwapVenueName)
        } else {
            None
        }
    }
}

/// The attributes that adding the venues emits.
pub open spec fn venue_attrs(v: Seq<SwapVenueUpdate>) -> Seq<(Seq<char>, Seq<char>)>
    decreases v.len(),
{
    if v.len() == 0 {
        seq![]
    } else {
        venue_attrs(v.drop_last()) + seq![
            ("action"@, "add_swap_venue"@),
            ("name"@, v.last().name@),
            ("contract_address"@, v.last().adapter_contract_address@),
        ]
    }
}

/// The attributes that a successful configuration update emits.
pub open spec fn config_attrs(
    v: Seq<SwapVenueUpdate>,
    ibc_transfer: Option<AddressUpdate>,
    ibc_wasm: Option<AddressUpdate>,
    owner: Option<String>,
) -> Seq<(Seq<char>, Seq<char>)> {
    seq![("action"@, "update_config"@)] + venue_attrs(v) + match ibc_transfer {
        Some(u) => seq![
            ("action"@, "add_ibc_transfer_adapter"@),
            ("contract_address"@, u.address@),
        ],
        None => seq![],
    } + match ibc_wasm {
        Some(u) => seq![
            ("action"@, "add_ibc_wasm_transfer_adapter"@),
            ("contract_address"@, u.address@),
        ],
        None => seq![],
    } + match owner {
        Some(o) => seq![("new_owner"@, o@)],
        None => seq![],
    }
}

/// The first error of a configuration update, after the administrator check.
pub open spec fn config_error(
    v: Seq<SwapVenueUpdate>,
    ibc_transfer: Option<AddressUpdate>,
    ibc_wasm: Option<AddressUpdate>,
) -> Option<ContractError> {
    if venues_error(v) is Some {
        venues_error(v)
    } else if ibc_transfer matches Some(u) && u.address_check is Err {
        Some(ibc_transfer->Some_0.address_check->Err_0)
    } else if ibc_wasm matches Some(u) && u.address_check is Err {
        Some(ibc_wasm->Some_0.address_check->Err_0)
    } else {
        None
    }
}

/// The first error of a prefix is the first error of the whole list.
proof fn lemma_venues_error_prefix(v: Seq<SwapVenueUpdate>, i: int)
    requires
        0 <= i <= v.len(),
        venues_error(v.take(i)) is Some,
    ensures
        venues_error(v) == venues_error(v.take(i)),
    decreases v.len() - i,
{
    if i < v.len() {
        assert(v.take(i + 1).drop_last() =~= v.take(i));
        lemma_venues_error_prefix(v, i + 1);
    } else {
        assert(v.take(i) =~= v);
    }
}

/// Whether an earlier venue than the `i`-th takes the same name.
fn name_taken_before(venues: &Vec<SwapVenueUpdate>, i: usize) -> (res: bool)
    requires
        i < venues@.len(),
    ensures
        res == exists|j: int| 0 <= j < i && #[trigger] venues@[j].name@ == venues@[i as int].name@,
{
    let mut j: usize = 0;
    while j < i
        invariant
            j <= i < venues@.len(),
            forall|k: int| 0 <= k < j ==> #[trigger] venues@[k].name@ != venues@[i as int].name@,
        decreases i - j,
    {
        if venues[j].name == venues[i].name {
            return true;
        }
        j = j + 1;
    }
    false
}

/// What a configuration update answers, for each input: see `execute_update_config`.
pub open spec fn update_config_post(
    sender: String,
    admin: Result<Option<String>, ContractError>,
    owner: Option<String>,
    swap_venues: Option<Vec<SwapVenueUpdate>>,
    ibc_transfer: Option<AddressUpdate>,
    ibc_wasm: Option<AddressUpdate>,
    res: Result<ConfigUpdate, ContractError>,
) -> bool {
    let v = match swap_venues {
        Some(v) => v@,
        None => Seq::<SwapVenueUpdate>::empty(),
    };
    match admin {
        Err(e) => res == Err::<ConfigUpdate, ContractError>(e),
        Ok(a) => if !is_admin(a, sender@) {
            res == Err::<ConfigUpdate, ContractError>(ContractError::NotAdmin)
        } else if config_error(v, ibc_transfer, ibc_wasm) is Some {
            res == Err::<ConfigUpdate, ContractError>(
                config_error(v, ibc_transfer, ibc_wasm)->Some_0,
            )
        } else {
            res matches Ok(u) && {
                &&& u.swap_venues@.len() == v.len()
                &&& forall|i: int|
                    0 <= i < v.len() ==> #[trigger] u.swap_venues@[i].name == v[i].name
                        && u.swap_venues@[i].address == v[i].adapter_contract_address
                &&& u.blocked@ == u.swap_venues@.map_values(|e: SwapVenueEntry| e.address)
                    + match ibc_transfer {
                    Some(t) => seq![t.address],
                    None => seq![],
                } + match ibc_wasm {
                    Some(t) => seq![t.address],
                    None => seq![],
                }
                &&& u.ibc_transfer_contract_address == match ibc_transfer {
                    Some(t) => Some(t.address),
                    None => None,
                }
                &&& u.ibc_wasm_contract_address == match ibc_wasm {
                    Some(t) => Some(t.address),
                    None => None,
                }
                &&& u.owner == owner
                &&& u.response.messages@.len() == 0
                &&& attr_views(u.response.attributes@) == config_attrs(
                    v,
                    ibc_transfer,
                    ibc_wasm,
                    owner,
                )
            }
        },
    }
}

/// Updates the configuration; only the administrator may do so. Each venue is stored under
/// a name that must be new, and its adapter is blocked as a target of contract calls; the
/// IBC adapters are stored and blocked likewise; the owner is replaced when one is given.
pub fn execute_update_config(
    sender: &String,
    admin: Result<Option<String>, ContractError>,
    owner: Option<String>,
    swap_venues: Option<Vec<SwapVenueUpdate>>,
    ibc_transfer: Option<AddressUpdate>,
    ibc_wasm: Option<AddressUpdate>,
) -> (res: Result<ConfigUpdate, ContractError>)
    ensures
        update_config_post(*sender, admin, owner, swap_venues, ibc_transfer, ibc_wasm, res),
{
    if let Err(e) = assert_admin(admin, sender) {
        return Err(e);
    }
    let mut response = Response::new();
    response.attributes.push(action("update_config"));
    let mut entries: Vec<SwapVenueEntry> = Vec::new();
    let mut blocked: Vec<String> = Vec::new();
    let ghost v0 = match &swap_venues {
        Some(v) => v@,
        None => Seq::<SwapVenueUpdate>::empty(),
    };
    let mut venues = match swap_venues {
        Some(v) => v,
        None => Vec::new(),
    };
    assert(venues@ == v0);
    assert(attr_views(response.attributes@) =~= seq![("action"@, "update_config"@)] + venue_attrs(
        v0.take(0),
    ));
    let n = venues.len();
    let mut i: usize = 0;
    while i < n
        invariant
            i <= n,
            n == venues@.len(),
            venues@ == v0,
            v0 == match swap_venues {
                Some(v) => v@,
                None => Seq::<SwapVenueUpdate>::empty(),
            },
            admin matches Ok(a) && is_admin(a, sender@),
            venues_error(v0.take(i as int)) is None,
            entries@.len() == i,
            forall|k: int|
                0 <= k < i ==> #[trigger] entries@[k].name == v0[k].name && entries@[k].address
                    == v0[k].adapter_contract_address,
            blocked@ == entries@.map_values(|e: SwapVenueEntry| e.address),
            response.messages@.len() == 0,
            attr_views(response.attributes@) == seq![("action"@, "update_config"@)] + venue_attrs(
                v0.take(i as int),
            ),
        decreases n - i,
    {
        assert(v0.take(i + 1).drop_last() =~= v0.take(i as int));
        assert(v0.take(i + 1).last() == v0[i as int]);
        if let Err(e) = &venues[i].address_check {
            assert(venues_error(v0.take(i + 1)) == Some(v0[i as int].address_check->Err_0));
            proof {
                lemma_venues_error_prefix(v0, i + 1);
            }
            return Err(e.clone());
        }
        let dup = venues[i].name_stored || name_taken_before(&venues, i);
        if dup {
            proof {
                if name_taken_before_spec(v0, i as int) {
                    let j = choose|j: int| 0 <= j < i && #[trigger] v0[j].name@ == v0[i as int].name@;
                    assert(v0.take(i + 1)[j].name@ == v0.take(i + 1).last().name@);
                }
                assert(venues_error(v0.take(i + 1)) == Some(ContractError::DuplicateSwapVenueName));
                lemma_venues_error_prefix(v0, i + 1);
            }
            return Err(ContractError::DuplicateSwapVenueName);
        }
        proof {
            assert forall|j: int| 0 <= j < i implies #[trigger] v0.take(i + 1)[j].name@ != v0.take(
                i + 1,
            ).last().name@ by {
                assert(v0.take(i + 1)[j] == v0[j]);
            }
            assert(venues_error(v0.take(i + 1)) is None);
        }
        let name = venues[i].name.clone();
        let address = venues[i].adapter_contract_address.clone();
        let ghost old_attrs = attr_views(response.attributes@);
        response.attributes.push(action("add_swap_venue"));
        response.attributes.push(attr_string("name", &name));
        response.attributes.push(attr_string("contract_address", &address));
        assert(attr_views(response.attributes@) =~= old_attrs + seq![
            ("action"@, "add_swap_venue"@),
            ("name"@, v0[i as int].name@),
            ("contract_address"@, v0[i as int].adapter_contract_address@),
        ]);
        let ghost old_entries = entries@;
        blocked.push(address.clone());
        entries.push(SwapVenueEntry { name, address });
        assert(entries@.map_values(|e: SwapVenueEntry| e.address) =~= old_entries.map_values(
            |e: SwapVenueEntry| e.address,
        ).push(entries@[i as int].address));
        i = i + 1;
    }
    assert(v0.take(n as int) =~= v0);
    let ghost after_venues = attr_views(response.attributes@);
    let ghost venue_blocked = blocked@;
    let ibc_transfer_contract_address = match ibc_transfer {
        Some(u) => {
            if let Err(e) = u.address_check {
                return Err(e);
            }
            response.attributes.push(action("add_ibc_transfer_adapter"));
            response.attributes.push(attr_string("contract_address", &u.address));
            blocked.push(u.address.clone());
            Some(u.address)
        },
        None => None,
    };
    let ghost after_transfer = attr_views(response.attributes@);
    let ghost transfer_blocked = blocked@;
    let ibc_wasm_contract_address = match ibc_wasm {
        Some(u) => {
            if let Err(e) = u.address_check {
                return Err(e);
            }
            response.attributes.push(action("add_ibc_wasm_transfer_adapter"));
            response.attributes.push(attr_string("contract_address", &u.address));
            blocked.push(u.address.clone());
            Some(u.address)
        },
        None => None,
    };
    let ghost after_wasm = attr_views(response.attributes@);
    let ghost wasm_blocked = blocked@;
    if let Some(o) = &owner {
        response.attributes.push(attr_string("new_owner", o));
    }
    proof {
        assert(after_transfer =~= after_venues + match ibc_transfer {
            Some(u) => seq![("action"@, "add_ibc_transfer_adapter"@), ("contract_address"@, u.address@)],
            None => seq![],
        });
        assert(after_wasm =~= after_transfer + match ibc_wasm {
            Some(u) => seq![("action"@, "add_ibc_wasm_transfer_adapter"@), ("contract_address"@, u.address@)],
            None => seq![],
        });
        assert(attr_views(response.attributes@) =~= after_wasm + match owner {
            Some(o) => seq![("new_owner"@, o@)],
            None => seq![],
        });
        assert(attr_views(response.attributes@) =~= config_attrs(v0, ibc_transfer, ibc_wasm, owner));
        assert(transfer_blocked =~= venue_blocked + match ibc_transfer {
            Some(t) => seq![t.address],
            None => seq![],
        });
        assert(wasm_blocked =~= transfer_blocked + match ibc_wasm {
            Some(t) => seq![t.address],
            None => seq![],
        });
    }
    Ok(
        ConfigUpdate {
            swap_venues: entries,
            blocked,
            ibc_transfer_contract_address,
            ibc_wasm_contract_address,
            owner,
            response,
        },
    )
}

/// Whether an earlier venue than the `i`-th takes the same name.
pub open spec fn name_taken_before_spec(v: Seq<SwapVenueUpdate>, i: int) -> bool {
    exists|j: int| 0 <= j < i && #[trigger] v[j].name@ == v[i].name@
}

} // verus!
