//! The decoded shape of a STUN binding response, and the validation and
//! extraction rules applied to it: the response is accepted only when its
//! transaction id equals the one that was sent, and the mapped address is
//! taken from the first attribute that carries one.

use vstd::prelude::*;

verus! {

/// A socket address as plain values: the IP in its canonical text form and
/// the port number.
#[derive(Debug)]
pub struct IpPort {
    pub ip: String,
    pub port: u16,
}

/// The mathematical value of an `IpPort`.
pub struct IpPortModel {
    pub ip: Seq<char>,
    pub port: u16,
}

impl View for IpPort {
    type V = IpPortModel;

    open spec fn view(&self) -> IpPortModel {
        IpPortModel { ip: self.ip@, port: self.port }
    }
}

/// One attribute of a decoded response. The three recognized mapped-address
/// encodings each carry the address they encode; every other attribute kind
/// is kept only as a placeholder, since nothing in it is consulted.
#[derive(Debug)]
pub enum Attr {
    Mapped(IpPort),
    XorMapped(IpPort),
    XorMapped2(IpPort),
    Other,
}

/// The mathematical value of an `Attr`.
pub enum AttrModel {
    Mapped(IpPortModel),
    XorMapped(IpPortModel),
    XorMapped2(IpPortModel),
    Other,
}

impl View for Attr {
    type V = AttrModel;

    open spec fn view(&self) -> AttrModel {
        match self {
            Attr::Mapped(p) => AttrModel::Mapped(p@),
            Attr::XorMapped(p) => AttrModel::XorMapped(p@),
            Attr::XorMapped2(p) => AttrModel::XorMapped2(p@),
            Attr::Other => AttrModel::Other,
        }
    }
}

/// A decoded STUN response: its transaction id and its attributes in wire
/// order.
#[derive(Debug)]
pub struct Response {
    pub transaction_id: [u8; 12],
    pub attributes: Vec<Attr>,
}

/// The mathematical value of a `Response`.
pub struct ResponseModel {
    pub transaction_id: Seq<u8>,
    pub attributes: Seq<AttrModel>,
}

impl View for Response {
    type V = ResponseModel;

    open spec fn view(&self) -> ResponseModel {
        ResponseModel {
            transaction_id: self.transaction_id@,
            attributes: self.attributes@.map_values(|a: Attr| a@),
        }
    }
}

/// Why a decoded response was rejected.
#[derive(Debug)]
pub enum ValidationError {
    /// The response's transaction id differs from the sent one.
    TransactionMismatch { received: [u8; 12], sent: [u8; 12] },
    /// No attribute of the response carries an address; the rejected
    /// response itself is kept for the diagnostic.
    NoAddressAttribute { response: Response },
}

/// The mathematical value of a `ValidationError`.
pub enum ValidationErrorModel {
    TransactionMismatch { received: Seq<u8>, sent: Seq<u8> },
    NoAddressAttribute { response: ResponseModel },
}

impl View for ValidationError {
    type V = ValidationErrorModel;

    open spec fn view(&self) -> ValidationErrorModel {
        match self {
            ValidationError::TransactionMismatch { received, sent } => (ValidationErrorModel::TransactionMismatch {
                received: received@,
                sent: sent@,
            }),
            ValidationError::NoAddressAttribute { response } => (ValidationErrorModel::NoAddressAttribute {
                response: response@,
            }),
        }
    }
}

/// The address an attribute carries, if it is one of the three recognized
/// mapped-address encodings.
pub open spec fn attr_address(a: AttrModel) -> Option<IpPortModel> {
    match a {
        AttrModel::Mapped(p) => Some(p),
        AttrModel::XorMapped(p) => Some(p),
        AttrModel::XorMapped2(p) => Some(p),
        AttrModel::Other => None,
    }
}

/// The first address found in `attrs`, scanning in order; later matches are
/// ignored.
pub open spec fn first_address(attrs: Seq<AttrModel>) -> Option<IpPortModel>
    decreases attrs.len(),
{
    if attrs.len() == 0 {
        None
    } else if attr_address(attrs[0]) is Some {
        attr_address(attrs[0])
    } else {
        first_address(attrs.drop_first())
    }
}

/// What extraction returns: the first carried address when the transaction id
/// matches, and the exact error otherwise.
pub open spec fn extract_spec(response: ResponseModel, sent: Seq<u8>) -> Result<
    IpPortModel,
    ValidationErrorModel,
> {
    if response.transaction_id != sent {
        Err(ValidationErrorModel::TransactionMismatch { received: response.transaction_id, sent })
    } else {
        match first_address(response.attributes) {
            Some(p) => Ok(p),
            None => Err(ValidationErrorModel::NoAddressAttribute { response }),
        }
    }
}

/// Whether the executable result `r` denotes the specified outcome `s`.
pub open spec fn extraction_matches(
    r: Result<IpPort, ValidationError>,
    s: Result<IpPortModel, ValidationErrorModel>,
) -> bool {
    match r {
        Ok(p) => s == Ok::<IpPortModel, ValidationErrorModel>(p@),
        Err(e) => s == Err::<IpPortModel, ValidationErrorModel>(e@),
    }
}

/// Whether two transaction ids hold the same twelve bytes.
pub fn tid_eq(a: &[u8; 12], b: &[u8; 12]) -> (r: bool)
    ensures
        r == (a@ == b@),
{
    let mut i: usize = 0;
    while i < 12
        invariant
            i <= 12,
            forall|j: int| 0 <= j < i ==> a@[j] == b@[j],
        decreases 12 - i,
    {
        if a[i] != b[i] {
            return false;
        }
        i = i + 1;
    }
    proof {
        assert(a@ =~= b@);
    }
    true
}

/// Whether `a` is one of the three recognized mapped-address encodings.
fn attr_has_address(a: &Attr) -> (r: bool)
    ensures
        r == (attr_address(a@) is Some),
{
    match a {
        Attr::Mapped(_) => true,
        Attr::XorMapped(_) => true,
        Attr::XorMapped2(_) => true,
        Attr::Other => false,
    }
}

/// First-match law: when every attribute before position `i` carries no
/// address and the one at `i` does, the scan yields exactly that address.
pub proof fn lemma_first_address_found(attrs: Seq<AttrModel>, i: int)
    requires
        0 <= i < attrs.len(),
        forall|j: int| 0 <= j < i ==> attr_address(#[trigger] attrs[j]) is None,
        attr_address(attrs[i]) is Some,
    ensures
        first_address(attrs) == attr_address(attrs[i]),
    decreases i,
{
    if i > 0 {
        lemma_first_address_found(attrs.drop_first(), i - 1);
    }
}

/// Absence law: when no attribute carries an address, the scan yields none.
pub proof fn lemma_first_address_absent(attrs: Seq<AttrModel>)
    requires
        forall|j: int| 0 <= j < attrs.len() ==> attr_address(#[trigger] attrs[j]) is None,
    ensures
        first_address(attrs) is None,
    decreases attrs.len(),
{
    if attrs.len() > 0 {
        lemma_first_address_absent(attrs.drop_first());
    }
}

/// Correlation law: a response whose transaction id differs from the sent one
/// is rejected with a transaction mismatch, whatever its attributes hold.
pub proof fn lemma_transaction_mismatch_rejected(response: ResponseModel, sent: Seq<u8>)
    requires
        response.transaction_id != sent,
    ensures
        extract_spec(response, sent) == Err::<IpPortModel, ValidationErrorModel>(
            ValidationErrorModel::TransactionMismatch { received: response.transaction_id, sent },
        ),
{
}

/// Absence law at the response level: a well-correlated response none of
/// whose attributes carries an address is rejected with
/// `NoAddressAttribute`, and the rejected response is the one given.
pub proof fn lemma_no_address_rejected(response: ResponseModel, sent: Seq<u8>)
    requires
        response.transaction_id == sent,
        forall|j: int| 0 <= j < response.attributes.len() ==> attr_address(
            #[trigger] response.attributes[j],
        ) is None,
    ensures
        extract_spec(response, sent) == Err::<IpPortModel, ValidationErrorModel>(
            ValidationErrorModel::NoAddressAttribute { response },
        ),
{
    lemma_first_address_absent(response.attributes);
}

/// Validates a decoded response against the sent transaction id and extracts
/// the address of the first recognized mapped-address attribute.
#[verifier::loop_isolation(false)]
pub fn extract_address(response: Response, sent_id: &[u8; 12]) -> (r: Result<
    IpPort,
    ValidationError,
>)
    ensures
        extraction_matches(r, extract_spec(response@, sent_id@)),
{
    if !tid_eq(&response.transaction_id, sent_id) {
        return Err(ValidationError::TransactionMismatch {
            received: response.transaction_id,
            sent: *sent_id,
        });
    }
    let ghost model = response@;
    let mut resp = response;
    let mut i: usize = 0;
    while i < resp.attributes.len()
        invariant
            resp@ == model,
            i <= resp.attributes.len(),
            forall|j: int| 0 <= j < i ==> attr_address(#[trigger] model.attributes[j]) is None,
        decreases resp.attributes.len() - i,
    {
        if attr_has_address(&resp.attributes[i]) {
            proof {
                assert(model.attributes[i as int] == resp.attributes@[i as int]@);
                lemma_first_address_found(model.attributes, i as int);
            }
            let a = resp.attributes.remove(i);
            match a {
                Attr::Mapped(p) => { return Ok(p); },
                Attr::XorMapped(p) => { return Ok(p); },
                Attr::XorMapped2(p) => { return Ok(p); },
                Attr::Other => { return vstd::pervasive::unreached(); },
            }
        }
        i = i + 1;
    }
    proof {
        lemma_first_address_absent(model.attributes);
    }
    Err(ValidationError::NoAddressAttribute { response: resp })
}

} // verus!
