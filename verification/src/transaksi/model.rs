//! The sales transaction and its status.

use vstd::prelude::*;
use vstd::string::*;

verus! {

/// The status of a sales transaction.
#[derive(Debug, Clone, Copy, PartialEq, Eq, Structural, Hash)]
pub enum StatusTransaksi {
    MasihDiproses,
    Selesai,
    Dibatalkan,
}

impl StatusTransaksi {
    /// The code under which the status is stored and shown.
    pub open spec fn code(self) -> Seq<char> {
        match self {
            StatusTransaksi::MasihDiproses => "MASIH_DIPROSES"@,
            StatusTransaksi::Selesai => "SELESAI"@,
            StatusTransaksi::Dibatalkan => "DIBATALKAN"@,
        }
    }

    /// The status's code as an owned text.
    pub fn to_string(&self) -> (r: String)
        ensures
            r@ == self.code(),
    {
        match self {
            StatusTransaksi::MasihDiproses => "MASIH_DIPROSES".to_string(),
            StatusTransaksi::Selesai => "SELESAI".to_string(),
            StatusTransaksi::Dibatalkan => "DIBATALKAN".to_string(),
        }
    }
}

/// A sales transaction.
#[derive(Debug, PartialEq, Eq)]
pub struct Transaksi {
    pub id: i32,
    pub id_pelanggan: i32,
    pub nama_pelanggan: String,
    pub tanggal_transaksi: String,
    /// In hundredths of the currency unit.
    pub total_harga: i64,
    pub status: StatusTransaksi,
    pub catatan: Option<String>,
}

/// What a sales transaction holds, as plain values.
pub struct TransaksiView {
    pub id: int,
    pub id_pelanggan: int,
    pub nama_pelanggan: Seq<char>,
    pub tanggal_transaksi: Seq<char>,
    pub total_harga: int,
    pub status: StatusTransaksi,
    pub catatan: Option<Seq<char>>,
}

impl View for Transaksi {
    type V = TransaksiView;

    open spec fn view(&self) -> TransaksiView {
        TransaksiView {
            id: self.id as int,
            id_pelanggan: self.id_pelanggan as int,
            nama_pelanggan: self.nama_pelanggan@,
            tanggal_transaksi: self.tanggal_transaksi@,
            total_harga: self.total_harga as int,
            status: self.status,
            catatan: match self.catatan {
                Some(c) => Some(c@),
                None => None,
            },
        }
    }
}

impl Clone for Transaksi {
    fn clone(&self) -> (r: Transaksi)
        ensures
            r@ == self@,
    {
        Transaksi {
            id: self.id,
            id_pelanggan: self.id_pelanggan,
            nama_pelanggan: self.nama_pelanggan.clone(),
            tanggal_transaksi: self.tanggal_transaksi.clone(),
            total_harga: self.total_harga,
            status: self.status,
            catatan: match &self.catatan {
                Some(c) => Some(c.clone()),
                None => None,
            },
        }
    }
}

/// The plain values of a list of transactions, in order.
pub open spec fn transaksi_views(list: Seq<Transaksi>) -> Seq<TransaksiView> {
    Seq::new(list.len(), |i: int| list[i]@)
}

} // verus!
