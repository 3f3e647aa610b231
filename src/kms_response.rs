use vstd::prelude::*;
use vstd::string::*;

use crate::decryption_id::{decimal_digits, DecryptionId};

verus! {

/// A signed decryption result, ready to be stored.
#[derive(Clone, Debug, PartialEq)]
pub enum KmsResponse {
    PublicDecryption { decryption_id: DecryptionId, decrypted_result: Vec<u8>, signature: Vec<u8> },
    UserDecryption {
        decryption_id: DecryptionId,
        user_decrypted_shares: Vec<u8>,
        signature: Vec<u8>,
    },
}

/// A stored row as read back: each column may be absent.
#[derive(Clone, Debug, PartialEq)]
pub struct ResponseRow {
    pub decryption_id: Option<Vec<u8>>,
    pub payload: Option<Vec<u8>>,
    pub signature: Option<Vec<u8>>,
}

#[derive(Clone, Copy, Debug, PartialEq, Eq)]
pub enum RowColumn {
    DecryptionId,
    Payload,
    Signature,
}

/// Why a row could not be read back as a response.
#[derive(Clone, Copy, Debug, PartialEq, Eq)]
pub enum DecodeError {
    MissingColumn(RowColumn),
    /// The identifier column does not hold exactly 32 bytes.
    WrongIdWidth,
}

/// The event of the gateway to put back to pending when a response could
/// not be stored.
#[derive(Clone, Copy, Debug, PartialEq, Eq)]
pub enum PendingEvent {
    PublicDecryption(DecryptionId),
    UserDecryption(DecryptionId),
}

pub open spec fn opt_view(o: Option<Vec<u8>>) -> Option<Seq<u8>> {
    match o {
        Some(v) => Some(v@),
        None => None,
    }
}

/// What reading a row yields, over the row's columns.
pub open spec fn decode_spec(
    id: Option<Seq<u8>>,
    payload: Option<Seq<u8>>,
    signature: Option<Seq<u8>>,
) -> Result<(Seq<u8>, Seq<u8>, Seq<u8>), DecodeError> {
    match id {
        None => Err(DecodeError::MissingColumn(RowColumn::DecryptionId)),
        Some(i) => if i.len() != 32 {
            Err(DecodeError::WrongIdWidth)
        } else {
            match payload {
                None => Err(DecodeError::MissingColumn(RowColumn::Payload)),
                Some(p) => match signature {
                    None => Err(DecodeError::MissingColumn(RowColumn::Signature)),
                    Some(s) => Ok((i, p, s)),
                },
            }
        },
    }
}

impl ResponseRow {
    pub open spec fn decoded(&self) -> Result<(Seq<u8>, Seq<u8>, Seq<u8>), DecodeError> {
        decode_spec(opt_view(self.decryption_id), opt_view(self.payload), opt_view(self.signature))
    }

    /// The row holds every column of the response.
    pub open spec fn stores(&self, resp: KmsResponse) -> bool {
        &&& opt_view(self.decryption_id) == Some(resp.id().le_bytes@)
        &&& opt_view(self.payload) == Some(resp.payload())
        &&& opt_view(self.signature) == Some(resp.signature())
    }

    /// `r` is what reading this row from the public (or the user) table
    /// yields: the response of that variant with the row's columns, or the
    /// first fault of the row.
    pub open spec fn reads_back(&self, public: bool, r: Result<KmsResponse, DecodeError>) -> bool {
        match (r, self.decoded()) {
            (Ok(resp), Ok((i, p, s))) => resp.is_public() == public && resp.id().le_bytes@ == i
                && resp.payload() == p && resp.signature() == s,
            (Err(e), Err(e2)) => e == e2,
            _ => false,
        }
    }
}

impl KmsResponse {
    pub open spec fn is_public(&self) -> bool {
        self is PublicDecryption
    }

    pub open spec fn id(&self) -> DecryptionId {
        match self {
            KmsResponse::PublicDecryption { decryption_id, .. } => *decryption_id,
            KmsResponse::UserDecryption { decryption_id, .. } => *decryption_id,
        }
    }

    /// The result bytes: the encoded plaintexts or the user's shares.
    pub open spec fn payload(&self) -> Seq<u8> {
        match self {
            KmsResponse::PublicDecryption { decrypted_result, .. } => decrypted_result@,
            KmsResponse::UserDecryption { user_decrypted_shares, .. } => user_decrypted_shares@,
        }
    }

    pub open spec fn signature(&self) -> Seq<u8> {
        match self {
            KmsResponse::PublicDecryption { signature, .. } => signature@,
            KmsResponse::UserDecryption { signature, .. } => signature@,
        }
    }

    /// Two responses carry the same variant, identifier and bytes.
    pub open spec fn same_as(&self, other: KmsResponse) -> bool {
        &&& self.is_public() == other.is_public()
        &&& self.id().le_bytes@ == other.id().le_bytes@
        &&& self.payload() == other.payload()
        &&& self.signature() == other.signature()
    }

    /// The short label of a response, as used in diagnostics.
    pub open spec fn label(&self) -> Seq<char> {
        if self.is_public() {
            "PublicDecryption #"@ + decimal_digits(self.id().value())
        } else {
            "UserDecryption #"@ + decimal_digits(self.id().value())
        }
    }

    pub open spec fn pending_event(&self) -> PendingEvent {
        if self.is_public() {
            PendingEvent::PublicDecryption(self.id())
        } else {
            PendingEvent::UserDecryption(self.id())
        }
    }

    /// The row that stores this response in its variant's table.
    pub fn to_row(&self) -> (r: ResponseRow)
        ensures
            r.stores(*self),
    {
        match self {
            KmsResponse::PublicDecryption { decryption_id, decrypted_result, signature } => {
                ResponseRow {
                    decryption_id: Some(decryption_id.to_le_vec()),
                    payload: Some(decrypted_result.clone()),
                    signature: Some(signature.clone()),
                }
            },
            KmsResponse::UserDecryption { decryption_id, user_decrypted_shares, signature } => {
                ResponseRow {
                    decryption_id: Some(decryption_id.to_le_vec()),
                    payload: Some(user_decrypted_shares.clone()),
                    signature: Some(signature.clone()),
                }
            },
        }
    }

    fn decode_row(row: &ResponseRow) -> (r: Result<(DecryptionId, Vec<u8>, Vec<u8>), DecodeError>)
        ensures
            match (r, row.decoded()) {
                (Ok((i, p, s)), Ok((i2, p2, s2))) => i.le_bytes@ == i2 && p@ == p2 && s@ == s2,
                (Err(e), Err(e2)) => e == e2,
                _ => false,
            },
    {
        let id = match &row.decryption_id {
            None => return Err(DecodeError::MissingColumn(RowColumn::DecryptionId)),
            Some(b) => match DecryptionId::from_le_slice(b.as_slice()) {
                None => return Err(DecodeError::WrongIdWidth),
                Some(id) => id,
            },
        };
        let payload = match &row.payload {
            None => return Err(DecodeError::MissingColumn(RowColumn::Payload)),
            Some(p) => p.clone(),
        };
        let signature = match &row.signature {
            None => return Err(DecodeError::MissingColumn(RowColumn::Signature)),
            Some(s) => s.clone(),
        };
        Ok((id, payload, signature))
    }

    /// Reads a row of the public decryption table back as a response.
    pub fn from_public_decomposition_row(row: &ResponseRow) -> (r: Result<KmsResponse, DecodeError>)
        ensures
            row.reads_back(true, r),
    {
        match Self::decode_row(row) {
            Ok((decryption_id, decrypted_result, signature)) => Ok(
                KmsResponse::PublicDecryption { decryption_id, decrypted_result, signature },
            ),
            Err(e) => Err(e),
        }
    }

    /// Reads a row of the user decryption table back as a response.
    pub fn from_user_decomposition_row(row: &ResponseRow) -> (r: Result<KmsResponse, DecodeError>)
        ensures
            row.reads_back(false, r),
    {
        match Self::decode_row(row) {
            Ok((decryption_id, user_decrypted_shares, signature)) => Ok(
                KmsResponse::UserDecryption { decryption_id, user_decrypted_shares, signature },
            ),
            Err(e) => Err(e),
        }
    }

    /// The gateway event that must go back to pending when this response
    /// could not be stored.
    pub fn free_associated_event(&self) -> (r: PendingEvent)
        ensures
            r == self.pending_event(),
    {
        match self {
            KmsResponse::PublicDecryption { decryption_id, .. } => PendingEvent::PublicDecryption(
                *decryption_id,
            ),
            KmsResponse::UserDecryption { decryption_id, .. } => PendingEvent::UserDecryption(
                *decryption_id,
            ),
        }
    }

    /// A view of the response for diagnostics.
    pub fn display(&self) -> (r: Display<'_>)
        ensures
            *r.response == *self,
    {
        Display { response: self }
    }

    pub fn id_ref(&self) -> (r: &DecryptionId)
        ensures
            *r == self.id(),
    {
        match self {
            KmsResponse::PublicDecryption { decryption_id, .. } => decryption_id,
            KmsResponse::UserDecryption { decryption_id, .. } => decryption_id,
        }
    }
}

/// A response seen as its label, as `KmsResponse::display` gives it.
pub struct Display<'a> {
    pub response: &'a KmsResponse,
}

impl<'a> Display<'a> {
    /// The label of the response: its variant and its identifier in decimal.
    pub fn fmt(&self) -> (r: String)
        ensures
            r@ == self.response.label(),
    {
        let digits = self.response.id_ref().to_decimal();
        let mut s = match self.response {
            KmsResponse::PublicDecryption { .. } => {
                proof {
                    reveal_strlit("PublicDecryption #");
                }
                String::from_str("PublicDecryption #")
            },
            KmsResponse::UserDecryption { .. } => {
                proof {
                    reveal_strlit("UserDecryption #");
                }
                String::from_str("UserDecryption #")
            },
        };
        s.append(digits.as_str());
        s
    }
}

/// Storing a response and reading its row back from its variant's table
/// gives the same variant, identifier, result bytes and signature.
pub proof fn lemma_row_round_trip(
    resp: KmsResponse,
    row: ResponseRow,
    r: Result<KmsResponse, DecodeError>,
)
    requires
        row.stores(resp),
        row.reads_back(resp.is_public(), r),
    ensures
        r matches Ok(out) && out.same_as(resp),
{
}

} // verus!
