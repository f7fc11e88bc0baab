# fast_marketplace

Automation of listings on an online marketplace: a local HTTP server receives a
request from the web front end, fetches the listing (a property or a vehicle)
from the backend, stores its photos locally, and drives a Chrome session that
fills in and publishes the marketplace form.

The library under `src/` holds the rules and decisions, each with a contract
proved by Verus:

- `item`, `vehicle`, `property`, `models/`: the listings and the options of the forms.
- `options`: the XPath that finds a dropdown option by its label and its other wordings.
- `forms`: the ordered steps that fill in the vehicle and property forms.
- `marketplace`: session-id validation, what the page address means, and the
  bounded waits for a sign-in, a publication and a sign-out.
- `usecases`: the three steps of a publication (fetch, store images, publish).
- `images`, `backend`, `updater`: the image store limits, JPEG re-encoding,
  file names and clean-up rule, the
  backend endpoints and replies, the release names and when to restart.
- `laws`: properties that span several functions.

`app/` is the program around it: the axum server, the HTTP clients, the image
downloads and the browser, which carry out the steps the library decides.
