# wedding_vanulio2025

The rules of a wedding invitation site, verified with Verus.

- `src/` is the verified library: invite identifiers and invites
  (`invite`), the notification mail (`notify`), number formatting and HTML
  escaping (`text`), storing and loading invites in blob storage
  (`storage`), new invitations from the guest list (`guest_list`), query
  strings (`query`) and the request flows of the site's endpoints (`flow`).
  Storage, mail and the request flows are state machines: they say which
  request to make next, and the caller hands back how it turned out.
- `app/` holds the endpoints themselves: it runs those state machines
  against Vercel blob storage, the SMTP server and the Vercel runtime,
  reads the guest list, and renders the HTML pages.
- `tests/` exercises the library on concrete values.
